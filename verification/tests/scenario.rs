//! The export run's decision sequence, replayed against canned
//! responses: submit, poll to completion, fetch, name, clean up.

use outline_backup::api::{build_post_request, id_request_body};
use outline_backup::connection::Connection;
use outline_backup::fetcher::{analyze_redirect_body, fallback_url, RedirectOutcome};
use outline_backup::poller::{JobState, PollVerdict, Poller};
use outline_backup::response::{
    process_info_response, process_plain_response, process_submit_response,
};
use outline_backup::store::{backup_filename, Timestamp};

#[test]
fn a_run_that_completes_after_five_polls_saves_the_archive_directly() {
    let conn = Connection::new(
        String::from("wiki.example.com"),
        true,
        String::from("test-api-key"),
        30,
    );

    let submit_text =
        "{\"status\":200,\"data\":{\"fileOperation\":{\"id\":\"job-1\",\"state\":\"creating\"}}}";
    let id = process_submit_response(submit_text).expect("submission must yield the job id");
    assert_eq!(id, "job-1");
    let body = id_request_body(id.as_str()).expect("the id is plain");
    assert_eq!(body, "{\"id\":\"job-1\"}");

    let mut poller = Poller::new(conn.timeout);
    let in_progress = "{\"status\":200,\"data\":{\"state\":\"in_progress\"}}";
    for _ in 0..5 {
        let state = process_info_response(in_progress).expect("polling must keep going");
        assert_eq!(poller.observe(state), PollVerdict::Continue);
    }
    let complete = "{\"status\":200,\"data\":{\"state\":\"complete\"}}";
    let state = process_info_response(complete).expect("the last poll succeeds");
    assert_eq!(state, JobState::Complete);
    assert_eq!(poller.observe(state), PollVerdict::Complete);

    let archive: Vec<u8> = std::iter::repeat(0u8).take(5000).collect();
    assert!(matches!(analyze_redirect_body(&archive), RedirectOutcome::Archive));

    let ts = Timestamp { year: 2023, month: 5, day: 6, hour: 7, minute: 8, second: 9 };
    assert_eq!(backup_filename(&ts), "outline-backup-2023-05-06-07-08-09.zip");

    let delete = build_post_request(&conn, "fileOperations.delete", Some(body));
    assert_eq!(delete.url, "https://wiki.example.com/api/fileOperations.delete");
    assert_eq!(process_plain_response("{\"status\":200,\"success\":true}"), Ok(()));
}

#[test]
fn a_short_redirect_error_is_recovered_through_the_extracted_path() {
    let conn = Connection::new(
        String::from("wiki.example.com"),
        true,
        String::from("test-api-key"),
        30,
    );
    let mut text = String::from(
        "<Error><Code>InvalidRequest</Code><Message>too many auth mechanisms</Message>\
         <Resource>/minio/path/x</Resource><RequestId>r</RequestId></Error>",
    );
    while text.len() < 200 {
        text.push(' ');
    }
    let body = text.into_bytes();
    assert_eq!(body.len(), 200);
    match analyze_redirect_body(&body) {
        RedirectOutcome::Fallback(path) => {
            assert_eq!(path, "/minio/path/x");
            assert_eq!(fallback_url(&conn, path.as_str()), "https://wiki.example.com/minio/path/x");
        }
        other => panic!("expected the recovery path, got {:?}", other),
    }
}
