//! What the scheduler guarantees over its whole life, proved from the
//! trigger policy and the definition of a pass.

use std::sync::Arc;
use vstd::prelude::*;
use crate::date::{
    law_next_day_adds_24_hours, law_next_month_keeps_day, next_day, next_month, timestamp_of,
    valid_civil, Date, SECONDS_PER_DAY,
};
use crate::scheduler::{
    date_task, evaluation, interval_task, is_due, pass_events, pass_tasks, SchedulerEvent,
    TimerTask, Trigger,
};
use crate::strategy::RepeatingStrategy;

verus! {

/// The store after one pass at each of the times `nows`, the first of them
/// being pass number `elapsed`.
pub open spec fn store_after<P>(tasks: Seq<TimerTask<P>>, elapsed: int, nows: Seq<Date>) -> Seq<
    TimerTask<P>,
>
    decreases nows.len(),
{
    if nows.len() == 0 {
        tasks
    } else {
        pass_tasks(
            store_after(tasks, elapsed, nows.drop_last()),
            elapsed + nows.len() - 1,
            nows.last(),
        )
    }
}

/// The events of the pass at time `now` that follows one pass at each of the
/// times `nows`, the first of them being pass number `elapsed`.
pub open spec fn events_after<P>(
    tasks: Seq<TimerTask<P>>,
    elapsed: int,
    nows: Seq<Date>,
    now: Date,
) -> Seq<SchedulerEvent<P>> {
    pass_events(store_after(tasks, elapsed, nows), elapsed + nows.len(), now)
}

/// Whether one of the `passes` passes that start at pass number `from` has a
/// number that is a positive multiple of `interval`.
pub open spec fn interval_fired(interval: int, from: int, passes: int) -> bool
    decreases passes,
{
    passes > 0 && (interval_fired(interval, from, passes - 1) || {
        let pass = from + passes - 1;
        pass > 0 && pass % interval == 0
    })
}

/// A pass over a store of one task is the evaluation of that task.
pub proof fn lemma_pass_of_one<P>(task: TimerTask<P>, elapsed: int, now: Date)
    ensures
        pass_events(seq![task], elapsed, now) == match evaluation(task, elapsed, now).event {
            Some(event) => seq![event],
            None => Seq::empty(),
        },
        pass_tasks(seq![task], elapsed, now) == if evaluation(task, elapsed, now).task.finished {
            Seq::empty()
        } else {
            seq![evaluation(task, elapsed, now).task]
        },
{
    let one = seq![task];
    assert(one.drop_last() == Seq::<TimerTask<P>>::empty());
    assert(one.last() == task);
    assert(pass_events(one.drop_last(), elapsed, now) == Seq::<SchedulerEvent<P>>::empty());
    assert(pass_tasks(one.drop_last(), elapsed, now) == Seq::<TimerTask<P>>::empty());
}

/// A pass evaluates the task registered last after all the others, and
/// independently of them.
pub proof fn lemma_pass_of_push<P>(
    tasks: Seq<TimerTask<P>>,
    task: TimerTask<P>,
    elapsed: int,
    now: Date,
)
    ensures
        pass_events(tasks.push(task), elapsed, now) == pass_events(tasks, elapsed, now) + (
        match evaluation(task, elapsed, now).event {
            Some(event) => seq![event],
            None => Seq::empty(),
        }),
        pass_tasks(tasks.push(task), elapsed, now) == pass_tasks(tasks, elapsed, now) + (
        if evaluation(task, elapsed, now).task.finished {
            Seq::empty()
        } else {
            seq![evaluation(task, elapsed, now).task]
        }),
{
    let all = tasks.push(task);
    assert(all.drop_last() == tasks);
    assert(all.last() == task);
}

/// A pass treats every task on its own: the pass over two stores put
/// together is the two passes put together.
pub proof fn law_pass_distributes<P>(
    first: Seq<TimerTask<P>>,
    second: Seq<TimerTask<P>>,
    elapsed: int,
    now: Date,
)
    ensures
        pass_events(first + second, elapsed, now) == pass_events(first, elapsed, now)
            + pass_events(second, elapsed, now),
        pass_tasks(first + second, elapsed, now) == pass_tasks(first, elapsed, now) + pass_tasks(
            second,
            elapsed,
            now,
        ),
    decreases second.len(),
{
    if second.len() == 0 {
        assert(first + second =~= first);
    } else {
        law_pass_distributes(first, second.drop_last(), elapsed, now);
        assert((first + second).drop_last() =~= first + second.drop_last());
        assert((first + second).last() == second.last());
    }
}

/// Tasks do not influence one another over any number of passes: the store
/// and the events after a run over two stores put together are those of the
/// two runs put together.
pub proof fn law_tasks_are_independent<P>(
    first: Seq<TimerTask<P>>,
    second: Seq<TimerTask<P>>,
    elapsed: int,
    nows: Seq<Date>,
    now: Date,
)
    ensures
        store_after(first + second, elapsed, nows) == store_after(first, elapsed, nows)
            + store_after(second, elapsed, nows),
        events_after(first + second, elapsed, nows, now) == events_after(
            first,
            elapsed,
            nows,
            now,
        ) + events_after(second, elapsed, nows, now),
    decreases nows.len(),
{
    if nows.len() > 0 {
        law_tasks_are_independent(first, second, elapsed, nows.drop_last(), nows.last());
        law_pass_distributes(
            store_after(first, elapsed, nows.drop_last()),
            store_after(second, elapsed, nows.drop_last()),
            elapsed + nows.len() - 1,
            nows.last(),
        );
    }
    law_pass_distributes(
        store_after(first, elapsed, nows),
        store_after(second, elapsed, nows),
        elapsed + nows.len(),
        now,
    );
}

/// A one-shot interval task with an interval of at least one minute, alone
/// in the store: it produces no event on pass 0, `Tick` on every pass before
/// the first one whose number is a positive multiple of the interval,
/// `Finish` on that pass, which removes it, and nothing ever after.
pub proof fn law_interval_once_finishes_once<P>(
    payload: Arc<P>,
    interval_minutes: u32,
    from: int,
    nows: Seq<Date>,
    now: Date,
)
    requires
        interval_minutes >= 1,
        from >= 0,
    ensures
        ({
            let task = interval_task(payload, interval_minutes, RepeatingStrategy::Once);
            let pass = from + nows.len();
            let fired = interval_fired(interval_minutes as int, from, nows.len() as int);
            &&& store_after(seq![task], from, nows) == if fired {
                Seq::empty()
            } else {
                seq![task]
            }
            &&& events_after(seq![task], from, nows, now) == if fired || pass == 0 {
                Seq::empty()
            } else if pass % (interval_minutes as int) == 0 {
                seq![SchedulerEvent::Finish(payload)]
            } else {
                seq![SchedulerEvent::Tick(payload)]
            }
        }),
    decreases nows.len(),
{
    let task = interval_task(payload, interval_minutes, RepeatingStrategy::Once);
    if nows.len() > 0 {
        law_interval_once_finishes_once(
            payload,
            interval_minutes,
            from,
            nows.drop_last(),
            nows.last(),
        );
        lemma_pass_of_one(task, from + nows.len() - 1, nows.last());
    }
    lemma_pass_of_one(task, from + nows.len(), now);
}

/// A one-shot interval task with an interval of at least one minute among
/// any other tasks: whatever stands before it and after it in the store, on
/// every pass the events of the others are those they would produce without
/// it, and between them stands what the task produces alone: nothing on pass
/// 0, `Tick` before the first pass whose number is a positive multiple of the
/// interval, `Finish` on that pass, and nothing ever after.
pub proof fn law_interval_once_among_others<P>(
    before: Seq<TimerTask<P>>,
    after: Seq<TimerTask<P>>,
    payload: Arc<P>,
    interval_minutes: u32,
    from: int,
    nows: Seq<Date>,
    now: Date,
)
    requires
        interval_minutes >= 1,
        from >= 0,
    ensures
        ({
            let task = interval_task(payload, interval_minutes, RepeatingStrategy::Once);
            let pass = from + nows.len();
            let fired = interval_fired(interval_minutes as int, from, nows.len() as int);
            &&& store_after(before.push(task) + after, from, nows) == store_after(
                before,
                from,
                nows,
            ) + (if fired {
                Seq::empty()
            } else {
                seq![task]
            }) + store_after(after, from, nows)
            &&& events_after(before.push(task) + after, from, nows, now) == events_after(
                before,
                from,
                nows,
                now,
            ) + (if fired || pass == 0 {
                Seq::empty()
            } else if pass % (interval_minutes as int) == 0 {
                seq![SchedulerEvent::Finish(payload)]
            } else {
                seq![SchedulerEvent::Tick(payload)]
            }) + events_after(after, from, nows, now)
        }),
{
    let task = interval_task(payload, interval_minutes, RepeatingStrategy::Once);
    assert(before.push(task) =~= before + seq![task]);
    law_tasks_are_independent(before, seq![task], from, nows, now);
    law_tasks_are_independent(before + seq![task], after, from, nows, now);
    law_interval_once_finishes_once(payload, interval_minutes, from, nows, now);
}

/// A one-shot date task whose date had been reached when it was armed ends
/// on the first pass after registration: that pass delivers `Expired` for
/// it, never `Tick`, and removes it from the store.
pub proof fn law_overdue_once_expires<P>(
    tasks: Seq<TimerTask<P>>,
    payload: Arc<P>,
    target: Date,
    registered: Date,
    elapsed: int,
    now: Date,
)
    requires
        timestamp_of(target@) <= timestamp_of(registered@) <= timestamp_of(now@),
    ensures
        ({
            let task = date_task(payload, target, RepeatingStrategy::Once, registered);
            &&& evaluation(task, elapsed, now).event == Some(SchedulerEvent::Expired(payload))
            &&& evaluation(task, elapsed, now).task.finished
            &&& pass_events(tasks.push(task), elapsed, now) == pass_events(
                tasks,
                elapsed,
                now,
            ).push(SchedulerEvent::Expired(payload))
            &&& pass_tasks(tasks.push(task), elapsed, now) == pass_tasks(tasks, elapsed, now)
        }),
{
    let task = date_task(payload, target, RepeatingStrategy::Once, registered);
    lemma_pass_of_push(tasks, task, elapsed, now);
}

/// A one-shot date task is `Tick`ed until its date is reached and ends with
/// `Finish` on the first pass at or after it.
pub proof fn law_date_once_finishes<P>(
    payload: Arc<P>,
    target: Date,
    registered: Date,
    elapsed: int,
    now: Date,
)
    requires
        timestamp_of(registered@) < timestamp_of(target@),
    ensures
        ({
            let task = date_task(payload, target, RepeatingStrategy::Once, registered);
            let result = evaluation(task, elapsed, now);
            if timestamp_of(now@) < timestamp_of(target@) {
                result.event == Some(SchedulerEvent::Tick(payload)) && result.task == task
            } else {
                result.event == Some(SchedulerEvent::Finish(payload)) && result.task.finished
            }
        }),
{
}

/// A daily or forever date task that is due reports a next target exactly
/// 24 hours after the previous one, at the same time of day, is rearmed with
/// that target, and stays in the store. The last day of year 9999 has no
/// following day and is left out.
pub proof fn law_daily_cycle_adds_24_hours<P>(
    tasks: Seq<TimerTask<P>>,
    task: TimerTask<P>,
    target: Date,
    elapsed: int,
    now: Date,
)
    requires
        task.trigger == Trigger::AbsoluteDate(target),
        task.strategy == RepeatingStrategy::Daily || task.strategy == RepeatingStrategy::Forever,
        !task.finished,
        valid_civil(target@),
        next_day(target@) is Some,
        timestamp_of(target@) <= timestamp_of(now@),
    ensures
        ({
            let next = Date::of(next_day(target@)->0);
            let result = evaluation(task, elapsed, now);
            &&& valid_civil(next@)
            &&& timestamp_of(next@) == timestamp_of(target@) + SECONDS_PER_DAY
            &&& next@.hour == target@.hour
            &&& next@.minute == target@.minute
            &&& next@.second == target@.second
            &&& result.event == Some(SchedulerEvent::FinishCycle(task.payload, Some(next)))
            &&& result.task == TimerTask { trigger: Trigger::AbsoluteDate(next), ..task }
            &&& pass_tasks(tasks.push(task), elapsed, now) == pass_tasks(
                tasks,
                elapsed,
                now,
            ).push(result.task)
        }),
{
    law_next_day_adds_24_hours(target@);
    Date::lemma_view_of(next_day(target@)->0);
    lemma_pass_of_push(tasks, task, elapsed, now);
}

/// A monthly date task that is due: where the following month has the
/// target's day, the task reports that day of that month as its next target,
/// at the same time of day, is rearmed with it and stays in the store.
/// Otherwise it reports no next target, finishes, and leaves the store.
pub proof fn law_monthly_cycle<P>(
    tasks: Seq<TimerTask<P>>,
    task: TimerTask<P>,
    target: Date,
    elapsed: int,
    now: Date,
)
    requires
        task.trigger == Trigger::AbsoluteDate(target),
        task.strategy == RepeatingStrategy::Monthly,
        !task.finished,
        valid_civil(target@),
        timestamp_of(target@) <= timestamp_of(now@),
    ensures
        ({
            let result = evaluation(task, elapsed, now);
            match next_month(target@) {
                Some(following) => {
                    let next = Date::of(following);
                    &&& valid_civil(next@)
                    &&& next@.day == target@.day
                    &&& 12 * next@.year + next@.month == 12 * target@.year + target@.month + 1
                    &&& next@.hour == target@.hour
                    &&& next@.minute == target@.minute
                    &&& next@.second == target@.second
                    &&& result.event == Some(
                        SchedulerEvent::FinishCycle(task.payload, Some(next)),
                    )
                    &&& result.task == TimerTask { trigger: Trigger::AbsoluteDate(next), ..task }
                    &&& pass_tasks(tasks.push(task), elapsed, now) == pass_tasks(
                        tasks,
                        elapsed,
                        now,
                    ).push(result.task)
                },
                None => {
                    &&& result.event == Some(SchedulerEvent::FinishCycle(task.payload, None))
                    &&& result.task.finished
                    &&& pass_tasks(tasks.push(task), elapsed, now) == pass_tasks(
                        tasks,
                        elapsed,
                        now,
                    )
                },
            }
        }),
{
    law_next_month_keeps_day(target@);
    if next_month(target@) is Some {
        Date::lemma_view_of(next_month(target@)->0);
    }
    lemma_pass_of_push(tasks, task, elapsed, now);
}

/// A repeating interval task that is due reports a cycle without a next
/// target and stays armed, unchanged.
pub proof fn law_interval_cycle_keeps_task<P>(task: TimerTask<P>, elapsed: int, now: Date)
    requires
        task.trigger is Interval,
        task.strategy != RepeatingStrategy::Once,
        !task.finished,
        is_due(task.trigger, elapsed, now),
    ensures
        evaluation(task, elapsed, now).event == Some(
            SchedulerEvent::FinishCycle(task.payload, None),
        ),
        evaluation(task, elapsed, now).task == task,
{
}

/// A finished task produces no event and stays finished, and evaluation
/// never changes a task's payload, its policy, or the kind of its trigger.
pub proof fn law_evaluation_preserves<P>(task: TimerTask<P>, elapsed: int, now: Date)
    ensures
        task.finished ==> evaluation(task, elapsed, now).event is None && evaluation(
            task,
            elapsed,
            now,
        ).task == task,
        evaluation(task, elapsed, now).task.payload == task.payload,
        evaluation(task, elapsed, now).task.strategy == task.strategy,
        evaluation(task, elapsed, now).task.trigger is Interval <==> task.trigger is Interval,
        task.trigger is Interval ==> evaluation(task, elapsed, now).task.trigger == task.trigger,
{
}

/// After a pass no finished task is left in the store, no task has been
/// added, and at most one event per task has been produced.
pub proof fn law_pass_sweeps_finished<P>(tasks: Seq<TimerTask<P>>, elapsed: int, now: Date)
    ensures
        forall|i: int|
            0 <= i < pass_tasks(tasks, elapsed, now).len() ==> !(#[trigger] pass_tasks(
                tasks,
                elapsed,
                now,
            )[i]).finished,
        pass_tasks(tasks, elapsed, now).len() <= tasks.len(),
        pass_events(tasks, elapsed, now).len() <= tasks.len(),
    decreases tasks.len(),
{
    if tasks.len() > 0 {
        law_pass_sweeps_finished(tasks.drop_last(), elapsed, now);
    }
}

/// Two registrations, whatever else the store holds, add exactly two tasks;
/// every following pass evaluates each of the two exactly once, after the
/// tasks that were there before.
pub proof fn law_two_registrations<P>(
    tasks: Seq<TimerTask<P>>,
    first: TimerTask<P>,
    second: TimerTask<P>,
    elapsed: int,
    now: Date,
)
    ensures
        tasks.push(first).push(second).len() == tasks.len() + 2,
        tasks.push(first).push(second)[tasks.len() as int] == first,
        tasks.push(first).push(second)[tasks.len() as int + 1] == second,
        pass_events(tasks.push(first).push(second), elapsed, now) == pass_events(
            tasks,
            elapsed,
            now,
        ) + pass_events(seq![first], elapsed, now) + pass_events(seq![second], elapsed, now),
        pass_tasks(tasks.push(first).push(second), elapsed, now) == pass_tasks(
            tasks,
            elapsed,
            now,
        ) + pass_tasks(seq![first], elapsed, now) + pass_tasks(seq![second], elapsed, now),
{
    lemma_pass_of_push(tasks, first, elapsed, now);
    lemma_pass_of_push(tasks.push(first), second, elapsed, now);
    lemma_pass_of_one(first, elapsed, now);
    lemma_pass_of_one(second, elapsed, now);
}

} // verus!
