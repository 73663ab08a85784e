use wasi_host::errors::{ErrorCode, SocketError};
use wasi_host::ip_name_lookup::{
    parse, resolve_addresses, resolve_next_address, HostAddr, IpAddress, ResolveAddressStream,
};
use wasi_host::poll::{pollable_ready, subscribe, Resource};
use wasi_host::table::Table;

#[test]
fn ipv4_literal_resolves_without_pool_work() {
    let mut t: Table<Resource> = Table::new();
    let (h, job) = resolve_addresses(&mut t, true, "127.0.0.1", 1).unwrap();
    // No background job, and no Waiting state is ever observable.
    assert!(job.is_none());
    match t.get(h).unwrap() {
        Resource::ResolveAddressStream(ResolveAddressStream::Done(Ok(_))) => {}
        _ => unreachable!("the stream must start out Done for a literal"),
    }
    match t.get_mut(h) {
        Resource::ResolveAddressStream(stream) => {
            assert_eq!(
                resolve_next_address(stream, None).unwrap(),
                Some(IpAddress::Ipv4(127, 0, 0, 1))
            );
            assert_eq!(resolve_next_address(stream, None).unwrap(), None);
        }
        _ => unreachable!(),
    }
}

#[test]
fn bare_ipv6_literal_is_accepted() {
    match parse("::1").unwrap() {
        HostAddr::Ipv6(a, b, c, d, e, f, g, h) => {
            assert_eq!((a, b, c, d, e, f, g), (0, 0, 0, 0, 0, 0, 0));
            assert_eq!(h, 1);
        }
        _ => unreachable!(),
    }
    assert!(matches!(parse("[2001:db8::2]").unwrap(), HostAddr::Ipv6(0x2001, 0xdb8, 0, 0, 0, 0, 0, 2)));
}

#[test]
fn malformed_name_is_an_argument_error() {
    assert_eq!(parse("exa mple").unwrap_err(), ErrorCode::InvalidArgument);
    assert_eq!(parse("").unwrap_err(), ErrorCode::InvalidArgument);
    let mut t: Table<Resource> = Table::new();
    let r = resolve_addresses(&mut t, true, "exa mple", 1);
    assert_eq!(r.unwrap_err(), SocketError::Code(ErrorCode::InvalidArgument));
    assert!(!t.contains(0));
}

#[test]
fn unicode_domain_is_punycoded() {
    match parse("b\u{00fc}cher.de").unwrap() {
        HostAddr::Domain(d) => assert_eq!(d, "xn--bcher-kva.de"),
        _ => unreachable!(),
    }
}

#[test]
fn disallowed_lookup_fails_without_creating_a_stream() {
    let mut t: Table<Resource> = Table::new();
    let r = resolve_addresses(&mut t, false, "127.0.0.1", 1);
    assert_eq!(r.unwrap_err(), SocketError::Code(ErrorCode::PermanentResolverFailure));
    // No stream resource was created: the next handle is still the first.
    assert!(!t.contains(0));
}

#[test]
fn domain_lookup_waits_on_the_blocking_pool() {
    let mut t: Table<Resource> = Table::new();
    let (h, job) = resolve_addresses(&mut t, true, "localhost", 42).unwrap();
    assert_eq!(job.as_deref(), Some("localhost"));
    // Subscribing reports not-ready while the pool task runs.
    let p = subscribe(&mut t, h, None).unwrap();
    assert!(!pollable_ready(&t, p, 0).unwrap());
    match t.get_mut(h) {
        Resource::ResolveAddressStream(stream) => {
            assert!(matches!(stream, ResolveAddressStream::Waiting(42)));
            // Still running: the guest is told to subscribe and retry.
            assert_eq!(resolve_next_address(stream, None).unwrap_err(), ErrorCode::WouldBlock);
            // The pool finishes; the addresses come out one per call, in order.
            let outcome = Ok(vec![IpAddress::Ipv4(127, 0, 0, 1), IpAddress::Ipv6(0, 0, 0, 0, 0, 0, 0, 1)]);
            assert_eq!(
                resolve_next_address(stream, Some(outcome)).unwrap(),
                Some(IpAddress::Ipv4(127, 0, 0, 1))
            );
            assert_eq!(
                resolve_next_address(stream, None).unwrap(),
                Some(IpAddress::Ipv6(0, 0, 0, 0, 0, 0, 0, 1))
            );
            assert_eq!(resolve_next_address(stream, None).unwrap(), None);
        }
        _ => unreachable!(),
    }
    assert!(pollable_ready(&t, p, 0).unwrap());
}

#[test]
fn resolver_error_is_delivered_exactly_once() {
    let mut stream = ResolveAddressStream::Waiting(1);
    let r = resolve_next_address(&mut stream, Some(Err(ErrorCode::NameUnresolvable)));
    assert_eq!(r.unwrap_err(), ErrorCode::NameUnresolvable);
    // Thereafter the stream behaves as exhausted, not as failing again.
    assert_eq!(resolve_next_address(&mut stream, None).unwrap(), None);
    assert_eq!(resolve_next_address(&mut stream, None).unwrap(), None);
}

#[test]
fn ready_step_is_one_shot() {
    let mut stream = ResolveAddressStream::Waiting(1);
    stream.ready(Ok(vec![IpAddress::Ipv4(10, 0, 0, 1)]));
    // A second completion is ignored.
    stream.ready(Ok(vec![IpAddress::Ipv4(10, 0, 0, 2)]));
    assert_eq!(
        resolve_next_address(&mut stream, None).unwrap(),
        Some(IpAddress::Ipv4(10, 0, 0, 1))
    );
}
