use rbin::errors::{status_code, PasteError};
use rbin::id::generate;
use rbin::service::{check_submission, paste_file_name, paste_url, retrieve, submit};
use rbin::store::PasteStore;

#[test]
fn round_trip_returns_written_content() {
    let mut store = PasteStore::new();
    let r = store.write("aZ3kq9".to_string(), "hello world".to_string());
    assert!(r.is_ok());
    assert_eq!(store.read("aZ3kq9"), Ok("hello world".to_string()));
}

#[test]
fn read_of_never_written_id_is_not_found() {
    let store = PasteStore::new();
    assert_eq!(store.read("000000"), Err(PasteError::NotFound));
}

#[test]
fn overwrite_replaces_content() {
    let mut store = PasteStore::new();
    store.write("aaaaaa".to_string(), "first".to_string()).unwrap();
    store.write("aaaaaa".to_string(), "second".to_string()).unwrap();
    assert_eq!(store.read("aaaaaa"), Ok("second".to_string()));
}

#[test]
fn two_writes_are_independently_retrievable() {
    let mut store = PasteStore::new();
    let id1 = generate();
    let mut id2 = generate();
    while id2 == id1 {
        id2 = generate();
    }
    store.write(id1.clone(), "first paste".to_string()).unwrap();
    store.write(id2.clone(), "second paste".to_string()).unwrap();
    assert_eq!(store.read(id1.as_str()), Ok("first paste".to_string()));
    assert_eq!(store.read(id2.as_str()), Ok("second paste".to_string()));
}

#[test]
fn empty_submission_is_rejected_and_nothing_stored() {
    let mut store = PasteStore::new();
    store.write("aaaaaa".to_string(), "kept".to_string()).unwrap();
    let r = submit(&mut store, Some(String::new()));
    assert_eq!(r, Err(PasteError::EmptyContent));
    assert_eq!(store.read("aaaaaa"), Ok("kept".to_string()));
    assert_eq!(store.read("bbbbbb"), Err(PasteError::NotFound));
}

#[test]
fn missing_field_is_rejected() {
    let mut store = PasteStore::new();
    assert_eq!(submit(&mut store, None), Err(PasteError::MissingField));
}

#[test]
fn submission_check_passes_content_through() {
    assert_eq!(check_submission(None), Err(PasteError::MissingField));
    assert_eq!(check_submission(Some(String::new())), Err(PasteError::EmptyContent));
    assert_eq!(check_submission(Some("body".to_string())), Ok("body".to_string()));
}

#[test]
fn submit_and_retrieve_scenario() {
    let mut store = PasteStore::new();
    let id = submit(&mut store, Some("hello world".to_string())).unwrap();
    assert_eq!(id.chars().count(), 6);
    assert!(id.chars().all(|c| c.is_ascii_alphanumeric()));
    assert_eq!(retrieve(&store, id.as_str()), Ok("hello world".to_string()));
    assert_eq!(retrieve(&store, "aZ3kq9X"), Err(PasteError::Validation));
    let empty_store = PasteStore::new();
    assert_eq!(retrieve(&empty_store, "000000"), Err(PasteError::NotFound));
}

#[test]
fn each_error_maps_to_one_status() {
    assert_eq!(status_code(PasteError::Validation), 400);
    assert_eq!(status_code(PasteError::NotFound), 404);
    assert_eq!(status_code(PasteError::IoFailure), 500);
    assert_eq!(status_code(PasteError::EmptyContent), 400);
    assert_eq!(status_code(PasteError::MissingField), 400);
}

#[test]
fn file_name_is_id_with_txt_suffix() {
    assert_eq!(paste_file_name("aZ3kq9"), "aZ3kq9.txt".to_string());
}

#[test]
fn url_joins_scheme_host_and_id() {
    assert_eq!(
        paste_url("http", "example.com", "aZ3kq9"),
        "http://example.com/aZ3kq9".to_string()
    );
    assert_eq!(paste_url("https", "paste.example", "000000"), "https://paste.example/000000".to_string());
}
