use rget::pipeline::{handle_response, status_is_success};
use rget::transfer::MemSource;

fn body_bytes(n: usize) -> Vec<u8> {
    let mut v = Vec::with_capacity(n);
    let mut i: usize = 0;
    while i < n {
        v.push((i * 7 % 256) as u8);
        i += 1;
    }
    v
}

#[test]
fn success_statuses_are_exactly_the_two_hundreds() {
    assert!(status_is_success(200));
    assert!(status_is_success(204));
    assert!(status_is_success(299));
    assert!(!status_is_success(199));
    assert!(!status_is_success(300));
    assert!(!status_is_success(404));
    assert!(!status_is_success(500));
}

#[test]
fn ok_response_yields_file_matching_body_byte_for_byte() {
    let data = body_bytes(300);
    let mut body = MemSource::new(data.clone());
    let r = handle_response(
        "http://host/dir/archive.bin",
        200,
        Some(300),
        true,
        &mut body,
    );
    let d = r.expect("a 2xx status must produce a download");
    assert_eq!(d.filename, "archive.bin");
    assert_eq!(d.contents.len(), 300);
    assert_eq!(d.contents, data);
}

#[test]
fn not_found_produces_no_file_and_reads_nothing() {
    let data = body_bytes(40);
    let mut body = MemSource::new(data);
    let r = handle_response("http://host/missing.bin", 404, Some(40), true, &mut body);
    assert!(r.is_none());
    assert_eq!(body.pos, 0);
}

#[test]
fn zero_declared_length_terminates_with_empty_file() {
    let mut body = MemSource::new(Vec::new());
    let r = handle_response("http://host/empty.bin", 200, Some(0), true, &mut body);
    let d = r.expect("a 2xx status must produce a download");
    assert_eq!(d.filename, "empty.bin");
    assert!(d.contents.is_empty());
}

#[test]
fn unknown_length_still_drains_the_whole_body() {
    let data = body_bytes(2048);
    let mut body = MemSource::new(data.clone());
    let r = handle_response("http://host/blob", 200, None, true, &mut body);
    let d = r.unwrap();
    assert_eq!(d.filename, "blob");
    assert_eq!(d.contents, data);
}
