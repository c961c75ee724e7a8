use try_filter_map::Advance;
use try_filter_map::IdleStep;
use try_filter_map::StreamPoll;
use try_filter_map::TaskPoll;
use try_filter_map::TaskStep;
use try_filter_map::TryFilterMap;

type Up = Vec<Result<i32, String>>;
type Task = Result<Option<i32>, String>;

fn err(s: &str) -> String {
    s.to_string()
}

/// Drives the adapter one advance, playing the scheduler: the upstream
/// sequence is a vector consumed from the front, and every task is
/// ready on its first poll.
fn advance<F: Fn(i32) -> Task>(ad: &mut TryFilterMap<Up, Task, F>) -> Advance<i32, String> {
    loop {
        if ad.has_pending() {
            let result = ad.task_mut().clone();
            match ad.on_task_poll(TaskPoll::Ready(result)) {
                TaskStep::Suspend => return Advance::Suspend,
                TaskStep::Yield(v) => return Advance::Item(Ok(v)),
                TaskStep::Fail(e) => return Advance::Item(Err(e)),
                TaskStep::Resume => {}
            }
        } else {
            let p = if ad.get_ref().is_empty() {
                StreamPoll::Done
            } else {
                StreamPoll::Item(ad.get_mut().remove(0))
            };
            match ad.on_stream_poll(p) {
                IdleStep::Suspend => return Advance::Suspend,
                IdleStep::Done => return Advance::Done,
                IdleStep::Fail(e) => return Advance::Item(Err(e)),
                IdleStep::Started => {}
            }
        }
    }
}

/// Advances until end-of-sequence, collecting every yielded item.
fn collect<F: Fn(i32) -> Task>(ad: &mut TryFilterMap<Up, Task, F>) -> Vec<Result<i32, String>> {
    let mut out = Vec::new();
    loop {
        match advance(ad) {
            Advance::Done => return out,
            Advance::Item(r) => out.push(r),
            Advance::Suspend => panic!("unexpected suspension"),
        }
    }
}

#[test]
fn scenario_keeps_even_items() {
    let upstream: Up = vec![Ok(1), Ok(2), Ok(3)];
    let mut ad = TryFilterMap::new(upstream, |n: i32| {
        if n % 2 == 0 {
            Ok(Some(n * 2))
        } else {
            Ok(None)
        }
    });
    assert_eq!(collect(&mut ad), vec![Ok(4)]);
}

#[test]
fn scenario_task_error_forwarded_then_done() {
    let upstream: Up = vec![Ok(1)];
    let mut ad = TryFilterMap::new(upstream, |_n: i32| Err(err("bad")));
    assert_eq!(advance(&mut ad), Advance::Item(Err(err("bad"))));
    assert_eq!(advance(&mut ad), Advance::Done);
}

#[test]
fn scenario_upstream_error_does_not_suppress_later_items() {
    let upstream: Up = vec![Err(err("x")), Ok(2)];
    let mut ad = TryFilterMap::new(upstream, |_n: i32| Ok(Some(20)));
    assert_eq!(collect(&mut ad), vec![Err(err("x")), Ok(20)]);
}

#[test]
fn new_adapter_starts_idle() {
    let ad: TryFilterMap<Up, Task, _> = TryFilterMap::new(vec![Ok(5)], |_n: i32| -> Task { Ok(None) });
    assert!(!ad.has_pending());
}

#[test]
fn get_ref_reads_without_side_effect() {
    let upstream: Up = vec![Ok(7), Err(err("e"))];
    let ad: TryFilterMap<Up, Task, _> = TryFilterMap::new(upstream, |_n: i32| -> Task { Ok(None) });
    let expected: Up = vec![Ok(7), Err(err("e"))];
    assert_eq!(ad.get_ref(), &expected);
    assert_eq!(ad.get_ref(), &expected);
    assert!(!ad.has_pending());
}

#[test]
fn get_mut_touches_only_the_stream() {
    let upstream: Up = vec![Ok(2)];
    let mut ad = TryFilterMap::new(upstream, |n: i32| Ok(Some(n + 1)));
    assert_eq!(advance(&mut ad), Advance::Item(Ok(3)));
    // The upstream is exhausted; hand it a fresh item through get_mut.
    assert!(!ad.has_pending());
    ad.get_mut().push(Ok(10));
    assert!(!ad.has_pending());
    assert_eq!(advance(&mut ad), Advance::Item(Ok(11)));
    assert_eq!(advance(&mut ad), Advance::Done);
}

#[test]
fn into_inner_returns_the_stream() {
    let upstream: Up = vec![Ok(1), Ok(2)];
    let ad: TryFilterMap<Up, Task, _> = TryFilterMap::new(upstream, |_n: i32| -> Task { Ok(None) });
    assert_eq!(ad.into_inner(), { let v: Up = vec![Ok(1), Ok(2)]; v });
}

#[test]
fn into_inner_discards_an_outstanding_task() {
    let upstream: Up = vec![Ok(1), Ok(2)];
    let mut ad = TryFilterMap::new(upstream, |_n: i32| -> Task { Ok(Some(9)) });
    // Pull the first item and start its task, leaving it unresolved.
    let step = {
        let p = StreamPoll::Item(ad.get_mut().remove(0));
        ad.on_stream_poll(p)
    };
    assert_eq!(step, IdleStep::Started);
    assert!(ad.has_pending());
    // Reclaiming the upstream silently drops the unresolved task.
    assert_eq!(ad.into_inner(), { let v: Up = vec![Ok(2)]; v });
}

#[test]
fn suspension_keeps_progress() {
    let mut ad = TryFilterMap::new({ let v: Up = vec![Ok(4)]; v }, |n: i32| Ok(Some(n * 10)));
    // Upstream not ready: the advance suspends and no task exists.
    assert_eq!(
        ad.on_stream_poll(StreamPoll::<i32, String>::Suspend),
        IdleStep::Suspend
    );
    assert!(!ad.has_pending());
    // Upstream yields the item: a task starts.
    let p = StreamPoll::Item(ad.get_mut().remove(0));
    assert_eq!(ad.on_stream_poll(p), IdleStep::Started);
    assert!(ad.has_pending());
    // The task is not ready yet: the advance suspends, the task stays put.
    assert_eq!(
        ad.on_task_poll(TaskPoll::<i32, String>::Suspend),
        TaskStep::Suspend
    );
    assert!(ad.has_pending());
    // Resumed later, the same task resolves and the value is yielded.
    let result = ad.task_mut().clone();
    assert_eq!(ad.on_task_poll(TaskPoll::Ready(result)), TaskStep::Yield(40));
    assert!(!ad.has_pending());
    assert_eq!(advance(&mut ad), Advance::Done);
}

#[test]
fn error_does_not_disable_the_adapter() {
    let upstream: Up = vec![Err(err("a")), Err(err("b")), Ok(3)];
    let mut ad = TryFilterMap::new(upstream, |n: i32| Ok(Some(n)));
    assert_eq!(advance(&mut ad), Advance::Item(Err(err("a"))));
    assert_eq!(advance(&mut ad), Advance::Item(Err(err("b"))));
    assert_eq!(advance(&mut ad), Advance::Item(Ok(3)));
    assert_eq!(advance(&mut ad), Advance::Done);
}

#[test]
fn dropped_items_never_yield_empty() {
    let upstream: Up = vec![Ok(1), Ok(2), Ok(3)];
    let mut ad = TryFilterMap::new(upstream, |_n: i32| -> Task { Ok(None) });
    // One advance call consumes every dropped item internally and comes
    // back with end-of-sequence, never with an empty yield.
    assert_eq!(advance(&mut ad), Advance::Done);
}

#[test]
fn empty_upstream_is_done_at_once() {
    let upstream: Up = vec![];
    let mut ad = TryFilterMap::new(upstream, |n: i32| Ok(Some(n)));
    assert_eq!(advance(&mut ad), Advance::Done);
}

#[test]
fn done_is_signalled_per_call_without_destroying_the_adapter() {
    let upstream: Up = vec![Ok(2)];
    let mut ad = TryFilterMap::new(upstream, |n: i32| Ok(Some(n)));
    assert_eq!(advance(&mut ad), Advance::Item(Ok(2)));
    assert_eq!(advance(&mut ad), Advance::Done);
    assert_eq!(advance(&mut ad), Advance::Done);
}

#[test]
fn output_preserves_upstream_order() {
    let upstream: Up = vec![Ok(1), Ok(2), Err(err("m")), Ok(3), Ok(4), Ok(5)];
    let mut ad = TryFilterMap::new(upstream, |n: i32| {
        if n % 2 == 1 {
            Ok(Some(n * 100))
        } else {
            Ok(None)
        }
    });
    assert_eq!(
        collect(&mut ad),
        vec![Ok(100), Err(err("m")), Ok(300), Ok(500)]
    );
}

#[test]
fn mixed_keep_drop_and_task_errors() {
    let upstream: Up = vec![Ok(1), Ok(2), Ok(3), Ok(4)];
    let mut ad = TryFilterMap::new(upstream, |n: i32| match n {
        1 => Ok(None),
        2 => Ok(Some(22)),
        3 => Err(err("three")),
        _ => Ok(Some(44)),
    });
    assert_eq!(
        collect(&mut ad),
        vec![Ok(22), Err(err("three")), Ok(44)]
    );
}
