use wasi_host::errors::TableError;
use wasi_host::http_types::{HostFields, HostOutgoingRequest, Method};
use wasi_host::ip_name_lookup::{drop_resolve_address_stream, resolve_addresses};
use wasi_host::poll::{drop_pollable, get_fields, subscribe, Resource};
use wasi_host::table::Table;

#[test]
fn owned_fields_resolve_to_themselves() {
    let mut t: Table<Resource> = Table::new();
    let fields = vec![("accept".to_owned(), b"*/*".to_vec())];
    let h = t.push(Resource::Fields(HostFields::Owned { fields: fields.clone() })).unwrap();
    assert_eq!(get_fields(&t, h).unwrap(), &fields);
}

#[test]
fn ref_fields_reach_into_their_parent() {
    let mut t: Table<Resource> = Table::new();
    let headers = vec![("host".to_owned(), b"example.com".to_vec())];
    let parent = t
        .push(Resource::OutgoingRequest(HostOutgoingRequest {
            method: Method::Get,
            scheme: None,
            path_with_query: None,
            authority: Some("example.com".to_owned()),
            headers: headers.clone(),
            body: None,
        }))
        .unwrap();
    let view = t.push_child(Resource::Fields(HostFields::Ref { parent }), parent).unwrap();
    assert_eq!(get_fields(&t, view).unwrap(), &headers);
    // The view keeps its parent alive; dropping the view frees it.
    assert!(matches!(t.delete(parent), Err(TableError::HasChildren)));
    t.delete(view).unwrap();
    assert!(t.delete(parent).is_ok());
}

#[test]
fn drop_pollable_releases_the_source() {
    let mut t: Table<Resource> = Table::new();
    let s = t
        .push(Resource::InputStream(wasi_host::streams::InputStream::new()))
        .unwrap();
    let p = subscribe(&mut t, s, None).unwrap();
    assert!(matches!(t.delete(s), Err(TableError::HasChildren)));
    assert!(drop_pollable(&mut t, p).is_ok());
    assert!(t.delete(s).is_ok());
    assert!(drop_pollable(&mut t, p).is_err());
}

#[test]
fn drop_resolve_stream_frees_the_entry() {
    let mut t: Table<Resource> = Table::new();
    let (h, _) = resolve_addresses(&mut t, true, "localhost", 1).unwrap();
    assert!(drop_resolve_address_stream(&mut t, h).is_ok());
    assert!(!t.contains(h));
    assert!(drop_resolve_address_stream(&mut t, h).is_err());
}

#[test]
fn typed_drops_classify_their_failures() {
    let mut t: Table<Resource> = Table::new();
    // A live handle of another kind is "not found" to a typed drop, and
    // the table is untouched by the failure.
    let s = t.push(Resource::InputStream(wasi_host::streams::InputStream::new())).unwrap();
    assert!(matches!(drop_pollable(&mut t, s), Err(TableError::NotPresent)));
    assert!(t.contains(s));
    // A pollable with nothing wrong deletes fine; its source still cannot
    // be deleted while the pollable lives.
    let p = subscribe(&mut t, s, None).unwrap();
    assert!(matches!(t.delete(s), Err(TableError::HasChildren)));
    assert!(drop_pollable(&mut t, p).is_ok());
}
