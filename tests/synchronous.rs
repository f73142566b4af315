use std::io::BufRead;
use std::sync::mpsc;
use std::time::Duration;
use timeout_iterator::error::TimeoutIteratorError;
use timeout_iterator::relay::relay_one;
use timeout_iterator::synchronous::TimeoutIterator;

// Runs a relay over `items` to the end, then builds an adapter over its queue.
fn relayed<T, I: Iterator<Item = T>>(mut items: I) -> TimeoutIterator<T> {
    let (sink, source) = mpsc::channel();
    while relay_one(items.next().map(Ok::<T, ()>), &sink).should_continue() {}
    drop(sink);
    TimeoutIterator::from_relay(Ok(()), source).ok().unwrap()
}

fn lines_of(text: &'static str) -> TimeoutIterator<std::io::Result<String>> {
    relayed(text.as_bytes().lines())
}

#[test]
fn synchronous_iterates() {
    let realistic_message = r"1
2
3
4
5";
    let mut ti = lines_of(realistic_message);

    assert_eq!(ti.next().unwrap().unwrap(), "1");
    assert_eq!(ti.next().unwrap().unwrap(), "2");
    assert_eq!(ti.next().unwrap().unwrap(), "3");
    assert_eq!(ti.next().unwrap().unwrap(), "4");
    assert_eq!(ti.next().unwrap().unwrap(), "5");
}

#[test]
fn synchronous_next_timeout() {
    let realistic_message = r"1
2
3
4
5";
    let mut ti = lines_of(realistic_message);

    assert_eq!(ti.next().unwrap().unwrap(), "1");
    assert_eq!(ti.next().unwrap().unwrap(), "2");
    assert_eq!(ti.next().unwrap().unwrap(), "3");
    assert_eq!(ti.next().unwrap().unwrap(), "4");
    assert_eq!(ti.next().unwrap().unwrap(), "5");

    let timeout_result = ti.next_timeout(Duration::from_secs(1));
    assert!(timeout_result.is_err());
}

#[test]
fn synchronous_peek_timeout_doesnt_remove() {
    let realistic_message = r"1
2
3
4
5";
    let mut ti = lines_of(realistic_message);

    assert_eq!(ti.next().unwrap().unwrap(), "1");
    assert_eq!(ti.next().unwrap().unwrap(), "2");
    assert_eq!(
        ti.peek_timeout(Duration::from_secs(1))
            .ok()
            .unwrap()
            .as_ref()
            .unwrap(),
        "3"
    );
    assert_eq!(ti.next().unwrap().unwrap(), "3");
    assert_eq!(ti.next().unwrap().unwrap(), "4");
    assert_eq!(
        ti.peek_timeout(Duration::from_secs(1))
            .ok()
            .unwrap()
            .as_ref()
            .unwrap(),
        "5"
    );
    assert_eq!(
        ti.peek_timeout(Duration::from_secs(1))
            .ok()
            .unwrap()
            .as_ref()
            .unwrap(),
        "5"
    );
    assert_eq!(ti.next().unwrap().unwrap(), "5");

    let timeout_result = ti.next_timeout(Duration::from_secs(1));
    assert!(timeout_result.is_err());
}

#[test]
fn synchronous_peek_doesnt_remove() {
    let realistic_message = r"1
2
3
4
5";
    let mut ti = lines_of(realistic_message);

    assert_eq!(ti.next().unwrap().unwrap(), "1");
    assert_eq!(ti.next().unwrap().unwrap(), "2");
    assert_eq!(ti.peek().unwrap().as_ref().unwrap(), "3");
    assert_eq!(ti.next().unwrap().unwrap(), "3");
    assert_eq!(ti.next().unwrap().unwrap(), "4");
    assert_eq!(ti.peek().unwrap().as_ref().unwrap(), "5");
    assert_eq!(ti.peek().unwrap().as_ref().unwrap(), "5");
    assert_eq!(ti.next().unwrap().unwrap(), "5");

    let timeout_result = ti.next_timeout(Duration::from_secs(1));
    assert!(timeout_result.is_err());
}

#[test]
fn synchronous_item_iterator() {
    let numbers: Vec<u32> = vec![1, 2, 3, 4, 5];
    let mut ti = relayed(numbers.into_iter());

    assert_eq!(ti.next().unwrap(), 1);
    assert_eq!(ti.next().unwrap(), 2);
    assert_eq!(*ti.peek_timeout(Duration::from_secs(1)).ok().unwrap(), 3);
    assert_eq!(ti.next().unwrap(), 3);
    assert_eq!(ti.next().unwrap(), 4);
    assert_eq!(*ti.peek_timeout(Duration::from_secs(1)).ok().unwrap(), 5);
    assert_eq!(*ti.peek_timeout(Duration::from_secs(1)).ok().unwrap(), 5);
    assert_eq!(ti.next().unwrap(), 5);

    let timeout_result = ti.next_timeout(Duration::from_secs(1));
    assert!(timeout_result.is_err());
}

fn is_send<T: Send>(_: &T) -> bool {
    true
}

#[test]
fn is_sendable() {
    let numbers: Vec<u32> = vec![1, 2, 3, 4, 5];
    let ti = relayed(numbers.into_iter());
    assert!(
        is_send(&ti),
        "If this compiles, TimeoutIterator is Send'able across threads."
    );
}

#[test]
fn slow_producer_times_out_then_delivers_in_order() {
    let (sink, source) = mpsc::channel::<u32>();
    let mut ti = TimeoutIterator::with_receiver(source);

    sink.send(1).unwrap();
    assert_eq!(ti.next(), Some(1));
    assert!(matches!(
        ti.next_timeout(Duration::from_millis(500)),
        Err(TimeoutIteratorError::TimedOut)
    ));
    sink.send(2).unwrap();
    assert_eq!(ti.next_timeout(Duration::from_millis(500)).ok(), Some(2));
    for n in 3..=5 {
        sink.send(n).unwrap();
    }
    drop(sink);
    assert_eq!(ti.next(), Some(3));
    assert_eq!(ti.next(), Some(4));
    assert_eq!(ti.next(), Some(5));
    assert!(matches!(
        ti.next_timeout(Duration::from_millis(500)),
        Err(TimeoutIteratorError::Disconnected)
    ));
    assert!(matches!(
        ti.next_timeout(Duration::from_millis(500)),
        Err(TimeoutIteratorError::Disconnected)
    ));
}

#[test]
fn failing_producer_ends_the_sequence() {
    let produced: Vec<Result<String, String>> = vec!["1", "2", "bad", "4"]
        .into_iter()
        .map(|s| match s.parse::<u32>() {
            Ok(_) => Ok(s.to_string()),
            Err(e) => Err(e.to_string()),
        })
        .collect();
    let mut items = produced.into_iter();
    let (sink, source) = mpsc::channel();
    let mut failures: Vec<String> = Vec::new();
    loop {
        let step = relay_one(items.next(), &sink);
        if let timeout_iterator::relay::RelayStep::Failed(e) = &step {
            failures.push(e.clone());
        }
        if !step.should_continue() {
            break;
        }
    }
    drop(sink);
    assert_eq!(failures.len(), 1);

    let mut ti = TimeoutIterator::with_receiver(source);
    assert_eq!(ti.next(), Some("1".to_string()));
    assert_eq!(ti.next(), Some("2".to_string()));
    assert!(matches!(
        ti.next_timeout(Duration::from_millis(100)),
        Err(TimeoutIteratorError::Disconnected)
    ));
    assert_eq!(ti.next(), None);
}

#[test]
fn spawn_failure_gives_no_adapter() {
    let (_sink, source) = mpsc::channel::<u32>();
    let spawned = Err(std::io::Error::new(std::io::ErrorKind::Other, "no more threads"));
    match TimeoutIterator::from_relay(spawned, source) {
        Err(TimeoutIteratorError::ErrorSpawningThread(e)) => {
            assert_eq!(e.to_string(), "no more threads")
        }
        _ => panic!("expected ErrorSpawningThread"),
    }
}

#[test]
fn repeated_peeks_show_one_item() {
    let (sink, source) = mpsc::channel::<u32>();
    let mut ti = TimeoutIterator::with_receiver(source);
    sink.send(7).unwrap();
    sink.send(8).unwrap();
    for _ in 0..4 {
        assert_eq!(ti.peek(), Some(&7));
        assert_eq!(*ti.peek_timeout(Duration::from_millis(10)).ok().unwrap(), 7);
    }
    assert_eq!(ti.next(), Some(7));
    assert_eq!(ti.peek(), Some(&8));
    assert_eq!(ti.next_timeout(Duration::from_millis(10)).ok(), Some(8));
}

#[test]
fn timed_out_peek_keeps_order() {
    let (sink, source) = mpsc::channel::<u32>();
    let mut ti = TimeoutIterator::with_receiver(source);
    assert!(matches!(
        ti.peek_timeout(Duration::from_millis(20)),
        Err(TimeoutIteratorError::TimedOut)
    ));
    assert!(matches!(
        ti.next_timeout(Duration::from_millis(20)),
        Err(TimeoutIteratorError::TimedOut)
    ));
    sink.send(1).unwrap();
    sink.send(2).unwrap();
    assert_eq!(*ti.peek_timeout(Duration::from_millis(20)).ok().unwrap(), 1);
    assert_eq!(ti.next(), Some(1));
    assert_eq!(ti.next_timeout(Duration::from_millis(20)).ok(), Some(2));
}

#[test]
fn ended_source_stays_ended() {
    let (sink, source) = mpsc::channel::<u32>();
    let mut ti = TimeoutIterator::with_receiver(source);
    sink.send(1).unwrap();
    drop(sink);
    assert_eq!(ti.peek(), Some(&1));
    assert_eq!(ti.next(), Some(1));
    assert_eq!(ti.peek(), None);
    assert_eq!(ti.next(), None);
    assert!(matches!(
        ti.peek_timeout(Duration::from_millis(10)),
        Err(TimeoutIteratorError::Disconnected)
    ));
    assert!(matches!(
        ti.next_timeout(Duration::from_millis(10)),
        Err(TimeoutIteratorError::Disconnected)
    ));
    assert_eq!(ti.next(), None);
}

#[test]
fn empty_source_is_disconnected() {
    let (sink, source) = mpsc::channel::<u32>();
    drop(sink);
    let mut ti = TimeoutIterator::with_receiver(source);
    assert!(matches!(
        ti.next_timeout(Duration::from_millis(0)),
        Err(TimeoutIteratorError::Disconnected)
    ));
    assert_eq!(ti.peek(), None);
}

#[test]
fn zero_timeout_takes_a_ready_item() {
    let (sink, source) = mpsc::channel::<u32>();
    let mut ti = TimeoutIterator::with_receiver(source);
    sink.send(4).unwrap();
    assert_eq!(ti.next_timeout(Duration::from_millis(0)).ok(), Some(4));
    assert!(matches!(
        ti.next_timeout(Duration::from_millis(0)),
        Err(TimeoutIteratorError::TimedOut)
    ));
}
