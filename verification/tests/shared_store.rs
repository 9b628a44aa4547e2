use std::sync::Arc;

use deltime::date::Date;
use deltime::scheduler::{Scheduler, SchedulerEvent};
use deltime::strategy::RepeatingStrategy;
use tokio::sync::RwLock;

fn count_for(events: &[SchedulerEvent<String>], name: &Arc<String>) -> usize {
    events
        .iter()
        .filter(|event| match event {
            SchedulerEvent::Tick(p)
            | SchedulerEvent::Finish(p)
            | SchedulerEvent::Expired(p)
            | SchedulerEvent::FinishCycle(p, _) => Arc::ptr_eq(p, name),
        })
        .count()
}

#[test]
fn registrations_from_two_callers_during_passes_keep_the_store_whole() {
    let runtime = tokio::runtime::Builder::new_multi_thread().worker_threads(4).build().unwrap();
    runtime.block_on(async {
        let now = Date::new(2024, 5, 17, 10, 0, 0).unwrap();
        let store: Arc<RwLock<Scheduler<String>>> = Arc::new(RwLock::new(Scheduler::new()));
        let old = Arc::new(String::from("old"));
        assert!(store.write().await.add_interval_task(old.clone(), 1000, RepeatingStrategy::Forever));
        let before = store.read().await.len();

        let ticking = store.clone();
        let ticker = tokio::spawn(async move {
            for _ in 0..200 {
                let mut guard = ticking.write().await;
                let stored = guard.len();
                let events = guard.tick(&now);
                assert!(events.len() <= stored);
                assert_eq!(guard.len(), stored);
                drop(guard);
                tokio::task::yield_now().await;
            }
        });
        let first = Arc::new(String::from("first"));
        let second = Arc::new(String::from("second"));
        let mut producers = Vec::new();
        for name in [first.clone(), second.clone()] {
            let registering = store.clone();
            producers.push(tokio::spawn(async move {
                tokio::task::yield_now().await;
                let mut guard = registering.write().await;
                guard.add_interval_task(name, 1_000_000, RepeatingStrategy::Forever)
            }));
        }
        for producer in producers {
            assert!(producer.await.unwrap());
        }
        assert_eq!(store.read().await.len(), before + 2);
        ticker.await.unwrap();
        assert_eq!(store.read().await.len(), before + 2);
        for _ in 0..5 {
            let events = store.write().await.tick(&now);
            assert_eq!(events.len(), 3);
            assert_eq!(count_for(&events, &old), 1);
            assert_eq!(count_for(&events, &first), 1);
            assert_eq!(count_for(&events, &second), 1);
        }
    });
}
