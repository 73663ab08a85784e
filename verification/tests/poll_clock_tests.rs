use wasi_host::clocks::{datetime_from_nanos, subscribe_instant, subscribe_to_duration};
use wasi_host::errors::TableError;
use wasi_host::http_types::Duration;
use wasi_host::poll::{pollable_ready, subscribe, Resource};
use wasi_host::streams::InputStream;
use wasi_host::table::Table;

#[test]
fn zero_duration_pollable_is_ready_without_wait() {
    let mut t: Table<Resource> = Table::new();
    let now = 1_000;
    let p = subscribe_to_duration(&mut t, Duration { nanos: 0 }, now).unwrap();
    // Ready at the very instant of the subscription, and at any other.
    assert!(pollable_ready(&t, p, now).unwrap());
    assert!(pollable_ready(&t, p, 0).unwrap());
    assert!(pollable_ready(&t, p, u64::MAX).unwrap());
}

#[test]
fn duration_pollable_fires_at_deadline() {
    let mut t: Table<Resource> = Table::new();
    let p = subscribe_to_duration(&mut t, Duration { nanos: 500 }, 1_000).unwrap();
    assert!(!pollable_ready(&t, p, 1_000).unwrap());
    assert!(!pollable_ready(&t, p, 1_499).unwrap());
    assert!(pollable_ready(&t, p, 1_500).unwrap());
    assert!(pollable_ready(&t, p, 2_000).unwrap());
}

#[test]
fn unrepresentable_deadline_never_fires() {
    let mut t: Table<Resource> = Table::new();
    let p = subscribe_to_duration(&mut t, Duration { nanos: u64::MAX }, 2).unwrap();
    assert!(!pollable_ready(&t, p, 0).unwrap());
    assert!(!pollable_ready(&t, p, u64::MAX).unwrap());
}

#[test]
fn instant_already_reached_is_ready() {
    let mut t: Table<Resource> = Table::new();
    let p = subscribe_instant(&mut t, 50, 100).unwrap();
    assert!(pollable_ready(&t, p, 100).unwrap());
    let q = subscribe_instant(&mut t, 300, 100).unwrap();
    assert!(!pollable_ready(&t, q, 299).unwrap());
    assert!(pollable_ready(&t, q, 300).unwrap());
}

#[test]
fn stream_pollable_tracks_data() {
    let mut t: Table<Resource> = Table::new();
    let s = t.push(Resource::InputStream(InputStream::new())).unwrap();
    let p = subscribe(&mut t, s, None).unwrap();
    assert!(!pollable_ready(&t, p, 0).unwrap());
    match t.get_mut(s) {
        Resource::InputStream(is) => is.feed(vec![1]),
        _ => unreachable!(),
    }
    assert!(pollable_ready(&t, p, 0).unwrap());
}

#[test]
fn pollable_keeps_its_source_alive() {
    let mut t: Table<Resource> = Table::new();
    let s = t.push(Resource::InputStream(InputStream::new())).unwrap();
    let p = subscribe(&mut t, s, None).unwrap();
    assert!(matches!(t.delete(s), Err(TableError::HasChildren)));
    t.delete(p).unwrap();
    assert!(t.delete(s).is_ok());
}

#[test]
fn subscribe_rejects_non_waitable_resources() {
    let mut t: Table<Resource> = Table::new();
    let e = t.push(Resource::StreamErrorPayload("x".to_owned())).unwrap();
    assert!(matches!(subscribe(&mut t, e, None), Err(TableError::WrongType)));
    assert!(matches!(subscribe(&mut t, 77, None), Err(TableError::NotPresent)));
}

#[test]
fn datetime_split_is_exact() {
    let d = datetime_from_nanos(1_500_000_001).unwrap();
    assert_eq!(d.seconds, 1);
    assert_eq!(d.nanoseconds, 500_000_001);
    let zero = datetime_from_nanos(0).unwrap();
    assert_eq!((zero.seconds, zero.nanoseconds), (0, 0));
    // Beyond the representable range of whole seconds.
    assert!(datetime_from_nanos(u128::MAX).is_none());
}
