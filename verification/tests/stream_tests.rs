use wasi_host::errors::{GuestStreamError, StreamError};
use wasi_host::host_io::{WasiCtx, WasiImpl};
use wasi_host::poll::Resource;
use wasi_host::streams::{InputStream, OutputStream};

fn host() -> WasiImpl {
    WasiImpl::new(WasiCtx { env: vec![], args: vec![], insecure_random_seed: 0 })
}

fn with_output(host: &mut WasiImpl, capacity: usize) -> u32 {
    host.table.push(Resource::OutputStream(OutputStream::new(capacity))).unwrap()
}

fn with_input(host: &mut WasiImpl, data: Vec<u8>, closed: bool) -> u32 {
    let mut s = InputStream::new();
    s.feed(data);
    if closed {
        s.close();
    }
    host.table.push(Resource::InputStream(s)).unwrap()
}

#[test]
fn write_within_reported_capacity_succeeds() {
    let mut h = host();
    let s = with_output(&mut h, 10);
    let k = h.check_write(s).unwrap();
    assert_eq!(k, 10);
    assert!(h.write(s, vec![1u8; k as usize]).is_ok());
    assert_eq!(h.check_write(s).unwrap(), 0);
}

#[test]
fn write_one_past_reported_capacity_traps() {
    let mut h = host();
    let s = with_output(&mut h, 10);
    let k = h.check_write(s).unwrap();
    let r = h.write(s, vec![1u8; k as usize + 1]);
    assert!(matches!(r, Err(StreamError::Trap(_))));
    // The failed write changed nothing; the full capacity is still there.
    assert_eq!(h.check_write(s).unwrap(), 10);
}

#[test]
fn zero_capacity_is_not_an_error() {
    let mut h = host();
    let s = with_output(&mut h, 0);
    assert_eq!(h.check_write(s).unwrap(), 0);
}

#[test]
fn write_zeroes_and_flush() {
    let mut h = host();
    let s = with_output(&mut h, 8);
    assert!(h.write_zeroes(s, 3).is_ok());
    assert!(h.flush(s).is_ok());
    assert!(h.blocking_flush(s).is_ok());
    assert_eq!(h.check_write(s).unwrap(), 5);
}

#[test]
fn blocking_write_rejects_oversized_buffer_before_io() {
    let mut h = host();
    let s = with_output(&mut h, 10_000);
    let r = h.blocking_write_and_flush(s, vec![0u8; 4097]);
    assert!(matches!(r, Err(StreamError::Trap(_))));
    // Rejected before any I/O: nothing was written.
    assert_eq!(h.check_write(s).unwrap(), 10_000);
    assert!(h.blocking_write_and_flush(s, vec![0u8; 4096]).is_ok());
    let r2 = h.blocking_write_zeroes_and_flush(s, 4097);
    assert!(matches!(r2, Err(StreamError::Trap(_))));
    assert!(h.blocking_write_zeroes_and_flush(s, 100).is_ok());
}

#[test]
fn read_returns_at_most_requested() {
    let mut h = host();
    let s = with_input(&mut h, vec![1, 2, 3], false);
    let v = h.read(s, 10).unwrap();
    assert_eq!(v, vec![1, 2, 3]);
    // Empty read while the stream is open is not an error.
    let v2 = h.read(s, 10).unwrap();
    assert!(v2.is_empty());
}

#[test]
fn read_at_end_of_data_reports_closed() {
    let mut h = host();
    let s = with_input(&mut h, vec![1, 2], true);
    assert_eq!(h.read(s, 1).unwrap(), vec![1]);
    assert_eq!(h.blocking_read(s, 5).unwrap(), vec![2]);
    assert!(matches!(h.read(s, 5), Err(StreamError::Closed)));
}

#[test]
fn skip_reports_discarded_count() {
    let mut h = host();
    let s = with_input(&mut h, vec![1, 2, 3, 4], false);
    assert_eq!(h.skip(s, 3).unwrap(), 3);
    assert_eq!(h.blocking_skip(s, 10).unwrap(), 1);
    assert_eq!(h.skip(s, 10).unwrap(), 0);
}

#[test]
fn splice_moves_at_most_destination_capacity() {
    let mut h = host();
    let dest = with_output(&mut h, 5);
    let src = with_input(&mut h, vec![1, 2, 3, 4, 5, 6, 7, 8], false);
    let moved = h.splice(dest, src, 100).unwrap();
    assert_eq!(moved, 5);
    // The five bytes now sit in the destination...
    match h.table.get_mut(dest) {
        Resource::OutputStream(s) => assert_eq!(s.take_contents(), vec![1, 2, 3, 4, 5]),
        _ => unreachable!(),
    }
    // ...and the source kept the remainder.
    assert_eq!(h.read(src, 10).unwrap(), vec![6, 7, 8]);
}

#[test]
fn splice_with_zero_capacity_touches_nothing() {
    let mut h = host();
    let dest = with_output(&mut h, 3);
    let src = with_input(&mut h, vec![9, 9], true);
    assert!(h.write(dest, vec![0, 0, 0]).is_ok());
    // Destination reports 0 capacity: the call returns 0 and the source
    // is not read at all.
    assert_eq!(h.splice(dest, src, 10).unwrap(), 0);
    assert_eq!(h.read(src, 10).unwrap(), vec![9, 9]);
}

#[test]
fn splice_honors_short_read() {
    let mut h = host();
    let dest = with_output(&mut h, 100);
    let src = with_input(&mut h, vec![1, 2], false);
    // Plenty of capacity, but the source hands over only what it has.
    assert_eq!(h.blocking_splice(dest, src, 50).unwrap(), 2);
}

#[test]
fn splice_requested_zero_moves_nothing() {
    let mut h = host();
    let dest = with_output(&mut h, 100);
    let src = with_input(&mut h, vec![1, 2], false);
    assert_eq!(h.splice(dest, src, 0).unwrap(), 0);
    assert_eq!(h.read(src, 10).unwrap(), vec![1, 2]);
}

#[test]
fn convert_stream_error_moves_cause_into_table() {
    let mut h = host();
    let g = h.convert_stream_error(StreamError::Closed).unwrap();
    assert_eq!(g, GuestStreamError::Closed);
    let g2 = h
        .convert_stream_error(StreamError::LastOperationFailed("connection reset".to_owned()))
        .unwrap();
    match g2 {
        GuestStreamError::LastOperationFailed(handle) => {
            assert_eq!(h.to_debug_string(handle).unwrap(), "connection reset");
            assert!(h.drop_error(handle).is_ok());
            assert!(h.to_debug_string(handle).is_err());
        }
        _ => unreachable!(),
    }
    let trap = h.convert_stream_error(StreamError::Trap("bug".to_owned()));
    assert_eq!(trap.unwrap_err(), "bug");
}

#[test]
fn drop_stream_releases_entry() {
    let mut h = host();
    let s = with_output(&mut h, 4);
    let i = with_input(&mut h, vec![], false);
    assert!(h.drop_output_stream(s).is_ok());
    assert!(h.drop_input_stream(i).is_ok());
    assert!(matches!(h.check_write(s), Err(StreamError::Trap(_))));
}
