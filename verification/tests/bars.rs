use deltime::date::Date;
use deltime::deletion::{DeleteProgress, DeleteStep};
use deltime::progress::{
    progress_bar_for_datetime, progress_bar_for_interval, set_date_message, set_interval_message,
    BarStyle, TaskWithProgress,
};
use deltime::strategy::RepeatingStrategy;
use deltime::task::Task;

fn moment(year: u16, month: u8, day: u8, hour: u8, minute: u8, second: u8) -> Date {
    Date::new(year, month, day, hour, minute, second).unwrap()
}

fn dated(path: &str, mask: Option<&str>, date: Date, repeat: RepeatingStrategy, visible: bool) -> Task {
    Task {
        path: String::from(path),
        mask: mask.map(String::from),
        interval: None,
        date: Some(date),
        repeat,
        visible,
    }
}

fn timed(path: &str, mask: Option<&str>, minutes: u32, repeat: RepeatingStrategy, visible: bool) -> Task {
    Task {
        path: String::from(path),
        mask: mask.map(String::from),
        interval: Some(minutes),
        date: None,
        repeat,
        visible,
    }
}

#[test]
fn bars_start_empty() {
    let once = progress_bar_for_interval(&RepeatingStrategy::Once, 7);
    assert_eq!(once.style, BarStyle::Single);
    assert_eq!((once.length, once.position), (7, 0));
    assert_eq!((once.prefix.as_str(), once.message.as_str()), ("", ""));
    assert!(!once.finished);
    assert!(once.lines.is_empty());
    for repeat in [
        RepeatingStrategy::Daily,
        RepeatingStrategy::Forever,
        RepeatingStrategy::Monthly,
    ] {
        assert_eq!(progress_bar_for_interval(&repeat, 7).style, BarStyle::Cycle);
    }
    let clock = progress_bar_for_datetime(120);
    assert_eq!(clock.style, BarStyle::Clock);
    assert_eq!((clock.length, clock.position), (120, 0));
}

#[test]
fn date_job_starts_with_a_clock_towards_its_date() {
    let now = moment(2022, 10, 26, 13, 23, 52);
    let target = moment(2022, 10, 26, 13, 26, 52);
    let entry = TaskWithProgress::new(
        dated("/tmp/a", Some("*.delme"), target, RepeatingStrategy::Once, true),
        true,
        &now,
    );
    let bar = entry.bar();
    assert_eq!(bar.style, BarStyle::Clock);
    assert_eq!(bar.length, 180);
    assert_eq!(bar.position, 0);
    assert_eq!(bar.prefix, "⌛");
    assert_eq!(bar.message, "26.10.2022 13:26:52 -> /tmp/a (*.delme)");
    assert!(!bar.finished);
    assert_eq!(entry.get_date(), Some(target));
    assert_eq!(entry.get_interval(), None);
    assert_eq!(entry.get_str_path(), "/tmp/a");
    assert_eq!(entry.get_path(), "/tmp/a");
    assert_eq!(entry.get_strategy(), &RepeatingStrategy::Once);
}

#[test]
fn date_messages_follow_visibility_and_mask() {
    let now = moment(2022, 10, 26, 13, 23, 52);
    let target = moment(2022, 11, 1, 9, 5, 0);
    let make = |mask, repeat, visible| {
        TaskWithProgress::new(dated("/tmp/a", mask, target, repeat, visible), true, &now)
    };
    assert_eq!(make(None, RepeatingStrategy::Daily, true).bar().message, "01.11.2022 09:05:00 -> /tmp/a");
    assert_eq!(make(None, RepeatingStrategy::Daily, true).bar().prefix, "🔃");
    assert_eq!(make(Some("*.x"), RepeatingStrategy::Monthly, false).bar().message, "01.11.2022 09:05:00");
    assert_eq!(make(Some("*.x"), RepeatingStrategy::Monthly, false).bar().prefix, "🔃");
    assert_eq!(make(None, RepeatingStrategy::Forever, false).bar().prefix, "🔃");
    assert_eq!(make(None, RepeatingStrategy::Once, false).bar().prefix, "⌛");
}

#[test]
fn clock_length_is_the_low_32_bits_of_the_seconds() {
    let now = moment(2022, 10, 26, 13, 23, 52);
    let past = TaskWithProgress::new(
        dated("/tmp/a", None, moment(2022, 10, 26, 13, 20, 52), RepeatingStrategy::Once, true),
        true,
        &now,
    );
    assert_eq!(past.bar().length, (-180i64) as u32 as u64);
    assert_eq!(past.bar().length, 4_294_967_116);
    let far = TaskWithProgress::new(
        dated("/tmp/a", None, moment(2222, 10, 26, 13, 23, 52), RepeatingStrategy::Once, true),
        true,
        &now,
    );
    let seconds = moment(2222, 10, 26, 13, 23, 52).timestamp() - now.timestamp();
    assert!(seconds > u32::MAX as i64);
    assert_eq!(far.bar().length, seconds as u32 as u64);
}

#[test]
fn interval_job_starts_with_a_counter() {
    let now = moment(2022, 10, 26, 13, 23, 52);
    let once = TaskWithProgress::new(
        timed("/tmp/a", None, 3, RepeatingStrategy::Once, true),
        true,
        &now,
    );
    assert_eq!(once.bar().style, BarStyle::Single);
    assert_eq!(once.bar().length, 3);
    assert_eq!(once.bar().prefix, "⌛");
    assert_eq!(once.bar().message, " -> /tmp/a");
    let cycle = TaskWithProgress::new(
        timed("/tmp/a", Some("*.delme"), 3, RepeatingStrategy::Forever, true),
        true,
        &now,
    );
    assert_eq!(cycle.bar().style, BarStyle::Cycle);
    assert_eq!(cycle.bar().prefix, "🔃");
    assert_eq!(cycle.bar().message, " -> /tmp/a (*.delme)");
    let hidden = TaskWithProgress::new(
        timed("/tmp/a", Some("*.delme"), 3, RepeatingStrategy::Forever, false),
        true,
        &now,
    );
    assert_eq!(hidden.bar().message, "");
    assert_eq!(hidden.get_interval(), Some(3));
}

#[test]
fn job_without_schedule_gets_no_bar() {
    let now = moment(2022, 10, 26, 13, 23, 52);
    let mut task = timed("/tmp/a", None, 3, RepeatingStrategy::Once, true);
    task.interval = None;
    let entry = TaskWithProgress::new(task, true, &now);
    assert_eq!(entry.bar().style, BarStyle::Hidden);
    assert_eq!(entry.bar().length, 0);
    assert_eq!(entry.bar().message, "");
    assert!(!entry.bar().finished);
}

#[test]
fn date_wins_over_interval() {
    let now = moment(2022, 10, 26, 13, 23, 52);
    let mut task = dated("/tmp/a", None, moment(2022, 10, 26, 13, 24, 52), RepeatingStrategy::Once, true);
    task.interval = Some(9);
    let entry = TaskWithProgress::new(task, true, &now);
    assert_eq!(entry.bar().style, BarStyle::Clock);
    assert_eq!(entry.bar().length, 60);
}

#[test]
fn missing_path_gets_a_stopped_bar() {
    let now = moment(2022, 10, 26, 13, 23, 52);
    let entry = TaskWithProgress::new(
        timed("/tmp/нет", None, 3, RepeatingStrategy::Forever, true),
        false,
        &now,
    );
    assert_eq!(entry.bar().style, BarStyle::Single);
    assert_eq!(entry.bar().length, 0);
    assert_eq!(entry.bar().prefix, "❌");
    assert_eq!(entry.bar().message, "файл /tmp/нет не существует");
    assert!(entry.bar().finished);
}

#[test]
fn finishing_marks_the_bar() {
    let now = moment(2022, 10, 26, 13, 23, 52);
    let mut entry = TaskWithProgress::new(
        timed("/tmp/a", None, 3, RepeatingStrategy::Once, true),
        true,
        &now,
    );
    entry.finish();
    assert_eq!(entry.bar().prefix, "✅");
    assert!(entry.bar().finished);
    assert!(entry.bar().lines.is_empty());
    assert_eq!(entry.bar().message, " -> /tmp/a");
    entry.reset();
    assert!(!entry.bar().finished);
    assert_eq!(entry.bar().position, 0);
    assert_eq!(entry.bar().prefix, "✅");
    entry.finish_with_err("не вышло");
    assert_eq!(entry.bar().prefix, "❌");
    assert!(entry.bar().finished);
    assert_eq!(entry.bar().lines, vec![String::from("не вышло")]);
    entry.print_line("ещё");
    assert_eq!(entry.bar().lines, vec![String::from("не вышло"), String::from("ещё")]);
    entry.set_prefix("?");
    assert_eq!(entry.bar().prefix, "?");
}

#[test]
fn progress_moves_only_scheduled_jobs() {
    let now = moment(2022, 10, 26, 13, 23, 52);
    let mut timed_entry = TaskWithProgress::new(
        timed("/tmp/a", None, 3, RepeatingStrategy::Once, true),
        true,
        &now,
    );
    timed_entry.update_progress(2, 5);
    assert_eq!((timed_entry.bar().position, timed_entry.bar().length), (2, 5));
    let mut dated_entry = TaskWithProgress::new(
        dated("/tmp/a", None, moment(2022, 10, 26, 13, 24, 52), RepeatingStrategy::Once, true),
        true,
        &now,
    );
    dated_entry.update_progress(7, 8);
    assert_eq!((dated_entry.bar().position, dated_entry.bar().length), (7, 8));
    let mut task = timed("/tmp/a", None, 3, RepeatingStrategy::Once, true);
    task.interval = None;
    let mut idle = TaskWithProgress::new(task, true, &now);
    idle.update_progress(7, 8);
    assert_eq!((idle.bar().position, idle.bar().length), (0, 0));
}

#[test]
fn heartbeat_advances_the_bar() {
    let now = moment(2022, 10, 26, 13, 23, 52);
    let mut counter = TaskWithProgress::new(
        timed("/tmp/a", None, 2, RepeatingStrategy::Once, true),
        true,
        &now,
    );
    counter.advance(&now);
    assert_eq!((counter.bar().position, counter.bar().length), (1, 2));
    counter.advance(&now);
    assert_eq!((counter.bar().position, counter.bar().length), (2, 2));
    counter.advance(&now);
    assert_eq!((counter.bar().position, counter.bar().length), (2, 2));
    let target = moment(2022, 10, 26, 13, 26, 52);
    let mut clock = TaskWithProgress::new(
        dated("/tmp/a", None, target, RepeatingStrategy::Once, true),
        true,
        &now,
    );
    clock.advance(&now);
    assert_eq!((clock.bar().position, clock.bar().length), (0, 180));
    clock.advance(&moment(2022, 10, 26, 13, 24, 52));
    assert_eq!((clock.bar().position, clock.bar().length), (60, 180));
    clock.advance(&moment(2022, 10, 26, 13, 26, 51));
    assert_eq!(clock.bar().position, 179);
    clock.advance(&target);
    assert_eq!(clock.bar().position, 180);
    clock.advance(&moment(2022, 10, 27, 0, 0, 0));
    assert_eq!(clock.bar().position, 180);
    clock.advance(&moment(2022, 10, 26, 13, 0, 0));
    assert_eq!(clock.bar().position, 0);
}

#[test]
fn a_new_cycle_moves_the_date_and_shows_it() {
    let now = moment(2022, 10, 26, 13, 23, 52);
    let target = moment(2022, 10, 26, 13, 26, 52);
    let mut entry = TaskWithProgress::new(
        dated("/tmp/a", None, target, RepeatingStrategy::Daily, true),
        true,
        &now,
    );
    entry.advance(&moment(2022, 10, 26, 13, 25, 52));
    entry.finish();
    entry.update_progress_with_cycle(0, 86_400);
    assert_eq!(entry.get_date(), Some(moment(2022, 10, 27, 13, 26, 52)));
    assert_eq!(entry.bar().message, "27.10.2022 13:26:52 -> /tmp/a");
    assert_eq!(entry.bar().prefix, "🔃");
    assert_eq!((entry.bar().position, entry.bar().length), (0, 86_400));
    assert!(!entry.bar().finished);
    entry.update_progress_with_cycle(5, u64::MAX);
    assert_eq!(entry.get_date(), Some(moment(2022, 10, 27, 13, 26, 52)));
    assert_eq!(entry.bar().message, "27.10.2022 13:26:52 -> /tmp/a");
    assert_eq!((entry.bar().position, entry.bar().length), (5, u64::MAX));
}

#[test]
fn a_new_cycle_only_resets_an_interval_job() {
    let now = moment(2022, 10, 26, 13, 23, 52);
    let mut entry = TaskWithProgress::new(
        timed("/tmp/a", None, 3, RepeatingStrategy::Forever, true),
        true,
        &now,
    );
    entry.advance(&now);
    entry.advance(&now);
    entry.update_progress_with_cycle(9, 86_400);
    assert_eq!((entry.bar().position, entry.bar().length), (0, 3));
    assert_eq!(entry.bar().message, " -> /tmp/a");
}

#[test]
fn plain_messages_always_wait_once() {
    let mut bar = progress_bar_for_interval(&RepeatingStrategy::Forever, 3);
    set_interval_message(&mut bar, true, "/tmp/a");
    assert_eq!((bar.message.as_str(), bar.prefix.as_str()), (" -> /tmp/a", "⌛"));
    set_interval_message(&mut bar, false, "/tmp/a");
    assert_eq!((bar.message.as_str(), bar.prefix.as_str()), ("", "⌛"));
    let date = moment(2022, 10, 26, 13, 26, 52);
    set_date_message(&mut bar, true, &date, "/tmp/a");
    assert_eq!(bar.message, "26.10.2022 13:26:52 -> /tmp/a");
    set_date_message(&mut bar, false, &date, "/tmp/a");
    assert_eq!(bar.message, "26.10.2022 13:26:52");
    assert_eq!(bar.prefix, "⌛");
    assert_eq!((bar.length, bar.style), (3, BarStyle::Cycle));
}

#[test]
fn only_once_does_not_run_forever() {
    assert!(!TaskWithProgress::is_run_forever(&RepeatingStrategy::Once));
    assert!(TaskWithProgress::is_run_forever(&RepeatingStrategy::Daily));
    assert!(TaskWithProgress::is_run_forever(&RepeatingStrategy::Forever));
    assert!(TaskWithProgress::is_run_forever(&RepeatingStrategy::Monthly));
}

#[test]
fn entries_are_equal_by_their_job() {
    let now = moment(2022, 10, 26, 13, 23, 52);
    let a = TaskWithProgress::new(timed("/tmp/a", None, 3, RepeatingStrategy::Once, true), true, &now);
    let b = TaskWithProgress::new(timed("/tmp/a", None, 9, RepeatingStrategy::Daily, false), false, &now);
    let c = TaskWithProgress::new(timed("/tmp/c", None, 3, RepeatingStrategy::Once, true), true, &now);
    assert!(a == b);
    assert!(a != c);
}

#[test]
fn del_file_steps_through_the_removal_of_the_job() {
    let now = moment(2022, 10, 26, 13, 23, 52);
    let entry = TaskWithProgress::new(
        timed("/tmp/a", Some("*.delme"), 3, RepeatingStrategy::Once, true),
        true,
        &now,
    );
    assert_eq!(entry.del_file(DeleteProgress::Started), DeleteStep::CheckExists);
    assert_eq!(
        entry.del_file(DeleteProgress::Checked { exists: false }),
        DeleteStep::Done(Err(String::from("Файл `/tmp/a` не найден")))
    );
    assert_eq!(
        entry.del_file(DeleteProgress::Inspected {
            kind: Some(deltime::deletion::EntryKind::Directory)
        }),
        DeleteStep::ListMatching(String::from("*.delme"))
    );
}

#[test]
fn entry_hands_out_its_job() {
    let now = moment(2022, 10, 26, 13, 23, 52);
    let entry = TaskWithProgress::new(
        timed("/tmp/a", Some("*.x"), 3, RepeatingStrategy::Monthly, false),
        true,
        &now,
    );
    assert_eq!(entry.task().path, "/tmp/a");
    assert_eq!(entry.task().mask.as_deref(), Some("*.x"));
    assert_eq!(entry.task().interval, Some(3));
    assert_eq!(entry.task().repeat, RepeatingStrategy::Monthly);
    assert!(!entry.task().visible);
}
