use std::sync::mpsc::sync_channel;
use std::time::Instant;

use read_until::lossy_contains;
use read_until::ReadUntil;
use read_until::ReadUntilError;
use read_until::ReadUntilOrTimeout;

#[test]
fn it_filters_based_on_predicate() {
    let (tx, rx) = sync_channel(1024);
    for byte in [1u8, 2, 3, 4, 5, 6, 7] {
        tx.send(byte).unwrap();
    }
    let reader = ReadUntil::new(rx, 2000);

    let result1 = &reader.until(|x: &Vec<u8>| x.contains(&5)).unwrap();
    let result2 = &reader.until(|x: &Vec<u8>| x.contains(&7)).unwrap();

    assert_eq!(result1, &vec![1, 2, 3, 4, 5]);
    assert_eq!(result2, &vec![6, 7]);
}

#[test]
fn it_times_out_when_there_are_no_matches() {
    let (tx, rx) = sync_channel(1024);
    for byte in [1u8, 2, 3, 4, 5, 6, 7] {
        tx.send(byte).unwrap();
    }
    let reader = ReadUntil::new(rx, 10);

    let started = Instant::now();
    let result = reader.until(|x: &Vec<u8>| x.contains(&10));

    assert_eq!(result.is_err(), true);
    // The deadline was 10 ms: the call must come back promptly, not hang.
    assert!(started.elapsed().as_millis() < 5000);
    drop(tx);
}

#[test]
fn a_timeout_does_not_disguise_a_later_disconnection() {
    let (tx, rx) = sync_channel(1024);
    tx.send(1u8).unwrap();
    let reader = ReadUntil::new(rx, 10);

    // The producing half is still open, so the first failure is a timeout.
    let first = reader.until(|x: &Vec<u8>| x.contains(&10));
    assert_eq!(first.unwrap_err(), ReadUntilError::Timeout);

    // Once it is gone, the next call reports disconnection instead.
    drop(tx);
    let second = reader.until(|x: &Vec<u8>| x.contains(&10));
    assert_eq!(second.unwrap_err(), ReadUntilError::Disconnected);
}

#[test]
fn it_filters_based_on_string() {
    let (tx, rx) = sync_channel(1024);
    for byte in String::from("hello world").into_bytes() {
        tx.send(byte).unwrap();
    }
    let expected_data = &"hello wo".as_bytes().to_vec();
    let reader = ReadUntil::new(rx, 2000);

    let result = &reader.until_contains("llo wo".to_string()).unwrap();

    assert_eq!(result, expected_data);
}

#[test]
fn it_reports_disconnection_once_the_producer_is_gone() {
    let (tx, rx) = sync_channel(1024);
    tx.send(1u8).unwrap();
    tx.send(2u8).unwrap();
    drop(tx);
    let reader = ReadUntil::new(rx, 2000);

    let result = reader.until(|x: &Vec<u8>| x.contains(&9));

    assert_eq!(result.unwrap_err(), ReadUntilError::Disconnected);
}

#[test]
fn it_stops_at_the_minimal_accepting_prefix() {
    let (tx, rx) = sync_channel(1024);
    for byte in [9u8, 9, 9, 9, 9] {
        tx.send(byte).unwrap();
    }
    let reader = ReadUntil::new(rx, 2000);

    // The condition also holds on every longer prefix; only the shortest
    // accepting one may come back.
    let result = reader.until(|x: &Vec<u8>| x.len() >= 3).unwrap();

    assert_eq!(result, vec![9, 9, 9]);
}

#[test]
fn sequential_calls_partition_the_stream() {
    let stream = [1u8, 2, 3, 4, 5, 6];
    let (tx, rx) = sync_channel(1024);
    for byte in stream {
        tx.send(byte).unwrap();
    }
    let reader = ReadUntil::new(rx, 2000);

    let first = reader.until(|x: &Vec<u8>| x.len() >= 2).unwrap();
    let second = reader.until(|x: &Vec<u8>| x.len() >= 3).unwrap();

    let mut joined = first.clone();
    joined.extend_from_slice(&second);
    assert_eq!(joined, stream[..joined.len()].to_vec());
    assert_eq!(joined.len(), first.len() + second.len());
}

#[test]
fn until_contains_decodes_leniently() {
    let (tx, rx) = sync_channel(1024);
    for byte in [0xFFu8, b'o', b'k'] {
        tx.send(byte).unwrap();
    }
    let reader = ReadUntil::new(rx, 2000);

    // The invalid byte is replaced rather than failing the call; the match
    // sits after it, so all three bytes come back.
    let result = reader.until_contains("ok".to_string()).unwrap();

    assert_eq!(result, vec![0xFF, b'o', b'k']);
}

#[test]
fn lossy_contains_replaces_invalid_sequences() {
    assert!(lossy_contains(&vec![0xFF, b'a'], "\u{FFFD}a"));
    assert!(!lossy_contains(&vec![0xFF, b'a'], "ba"));
    assert!(lossy_contains(&vec![b'a', b'b', b'c'], "bc"));
    assert!(!lossy_contains(&vec![], "a"));
    assert!(lossy_contains(&vec![b'a'], ""));
}
