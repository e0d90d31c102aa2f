use lan_ingest::events::UploadEvent;
use lan_ingest::ingest::{begin_upload, Action, Report, Step, UploadSession};
use lan_ingest::naming::TargetPath;
use lan_ingest::registry::DirectoryRegistry;
use lan_ingest::routes::{Reply, ServiceError};
use lan_ingest::MAX_UPLOAD_SIZE;

fn session_in(dir: &str) -> UploadSession {
    UploadSession::open(dir, Some("BOUNDARY".to_string())).unwrap()
}

fn field(name: &str) -> Report {
    Report::Field { file_name: Some(name.to_string()) }
}

fn place(dir: &str, file_name: &str, index: u64) -> TargetPath {
    TargetPath { dir: dir.to_string(), file_name: file_name.to_string(), index }
}

fn quiet(step: &Step) -> bool {
    step.event.is_none() && step.failure.is_none()
}

fn started(name: &str) -> UploadEvent {
    UploadEvent::Started { file_name: name.to_string() }
}

fn progress(name: &str, bytes_written: u64) -> UploadEvent {
    UploadEvent::Progress { file_name: name.to_string(), bytes_written }
}

fn done(name: &str) -> UploadEvent {
    UploadEvent::Done { file_name: name.to_string() }
}

/// Takes a session between fields through one file whose chunks are all
/// written, and gives back what was published.
fn store(session: &mut UploadSession, name: &str, taken: u64, chunks: &[u64]) -> Vec<UploadEvent> {
    let mut events = Vec::new();
    let mut reports = vec![field(name)];
    for _ in 0..taken {
        reports.push(Report::Probed { exists: true });
    }
    reports.push(Report::Probed { exists: false });
    reports.push(Report::Created { ok: true });
    for len in chunks {
        reports.push(Report::Chunk { len: *len });
        reports.push(Report::Written { ok: true });
    }
    reports.push(Report::EndOfField);
    for report in reports {
        let step = session.step(report);
        assert_eq!(step.failure, None);
        events.extend(step.event);
    }
    events
}

#[test]
fn no_boundary_no_session() {
    assert_eq!(UploadSession::open("/up", None).err(), Some(ServiceError::MalformedRequest));
    assert_eq!(begin_upload("/up", None).err(), Some(ServiceError::MalformedRequest));
}

#[test]
fn boundary_is_read_from_the_header() {
    let session = begin_upload("/up", Some("multipart/form-data; boundary=ABCDEFG")).unwrap();
    assert_eq!(session.boundary(), "ABCDEFG");
    assert_eq!(session.dir(), "/up");
    assert_eq!(session.pending(), Action::NextField);
    let dashed = begin_upload("/up", Some("multipart/form-data; boundary=------ABCDEFG")).unwrap();
    assert_eq!(dashed.boundary(), "------ABCDEFG");
}

#[test]
fn header_without_usable_boundary_is_malformed() {
    for header in [
        "",
        "text/plain",
        "multipart/form-data",
        "multipart/mixed; boundary=ABCDEFG",
        "application/json; boundary=ABCDEFG",
        "not a media type",
    ] {
        assert_eq!(
            begin_upload("/up", Some(header)).err(),
            Some(ServiceError::MalformedRequest),
            "{}",
            header
        );
    }
}

#[test]
fn opened_session_waits_for_a_field() {
    let session = session_in("/up");
    assert_eq!(session.dir(), "/up");
    assert_eq!(session.boundary(), "BOUNDARY");
    assert_eq!(session.pending(), Action::NextField);
}

#[test]
fn a_body_without_fields_succeeds() {
    let mut session = session_in("/up");
    let step = session.step(Report::EndOfBody);
    assert!(quiet(&step));
    assert_eq!(session.pending(), Action::Respond(Reply::Done));
    assert_eq!(Reply::Done.status(), 200);
}

#[test]
fn a_file_field_is_probed_under_its_own_name_first() {
    let mut session = session_in("/up");
    let step = session.step(field("a.txt"));
    assert!(quiet(&step));
    assert_eq!(session.pending(), Action::Probe(place("/up", "a.txt", 0)));
}

#[test]
fn taken_names_lead_to_numbered_candidates() {
    let mut session = session_in("/up");
    session.step(field("a.txt"));
    assert!(quiet(&session.step(Report::Probed { exists: true })));
    assert_eq!(session.pending(), Action::Probe(place("/up", "a_1.txt", 1)));
    assert!(quiet(&session.step(Report::Probed { exists: true })));
    assert_eq!(session.pending(), Action::Probe(place("/up", "a_2.txt", 2)));
    let step = session.step(Report::Probed { exists: false });
    assert_eq!(step.event, Some(started("a.txt")));
    assert_eq!(step.failure, None);
    assert_eq!(session.pending(), Action::Create(place("/up", "a_2.txt", 2)));
}

#[test]
fn a_stored_file_is_started_reported_and_done() {
    let mut session = session_in("/up");
    let events = store(&mut session, "a.txt", 0, &[4, 6, 5]);
    assert_eq!(
        events,
        vec![
            started("a.txt"),
            progress("a.txt", 4),
            progress("a.txt", 10),
            progress("a.txt", 15),
            done("a.txt"),
        ]
    );
    assert_eq!(session.pending(), Action::NextField);
}

#[test]
fn an_empty_file_has_no_progress() {
    let mut session = session_in("/up");
    assert_eq!(store(&mut session, "empty", 3, &[]), vec![started("empty"), done("empty")]);
}

#[test]
fn an_empty_chunk_repeats_the_count() {
    let mut session = session_in("/up");
    assert_eq!(
        store(&mut session, "a", 0, &[3, 0, 2]),
        vec![started("a"), progress("a", 3), progress("a", 3), progress("a", 5), done("a")]
    );
}

#[test]
fn events_carry_the_requested_name_not_the_stored_one() {
    let mut session = session_in("/up");
    let events = store(&mut session, "a.txt", 2, &[1]);
    assert_eq!(events, vec![started("a.txt"), progress("a.txt", 1), done("a.txt")]);
}

#[test]
fn writing_is_asked_for_after_each_chunk() {
    let mut session = session_in("/up");
    session.step(field("a"));
    session.step(Report::Probed { exists: false });
    assert!(quiet(&session.step(Report::Created { ok: true })));
    assert_eq!(session.pending(), Action::NextChunk);
    assert!(quiet(&session.step(Report::Chunk { len: 10 })));
    assert_eq!(session.pending(), Action::Write);
    let step = session.step(Report::Written { ok: true });
    assert_eq!(step.event, Some(progress("a", 10)));
    assert_eq!(session.pending(), Action::NextChunk);
    let end = session.step(Report::EndOfField);
    assert_eq!(end.event, Some(done("a")));
    assert_eq!(session.pending(), Action::NextField);
}

#[test]
fn a_file_of_exactly_the_limit_is_stored() {
    let mut session = session_in("/up");
    let half = MAX_UPLOAD_SIZE / 2;
    let events = store(&mut session, "big", 0, &[half, half]);
    assert_eq!(
        events,
        vec![started("big"), progress("big", half), progress("big", 4294967296), done("big")]
    );
    assert_eq!(session.pending(), Action::NextField);

    let mut single = session_in("/up");
    let events = store(&mut single, "big", 0, &[MAX_UPLOAD_SIZE]);
    assert_eq!(events, vec![started("big"), progress("big", MAX_UPLOAD_SIZE), done("big")]);
}

#[test]
fn one_byte_over_the_limit_fails_the_request() {
    let mut session = session_in("/up");
    session.step(field("big"));
    session.step(Report::Probed { exists: false });
    session.step(Report::Created { ok: true });
    session.step(Report::Chunk { len: MAX_UPLOAD_SIZE });
    session.step(Report::Written { ok: true });
    let step = session.step(Report::Chunk { len: 1 });
    assert_eq!(step.failure, Some(ServiceError::PayloadTooLarge));
    assert_eq!(step.event, None);
    assert_eq!(session.pending(), Action::Respond(Reply::FileTooLarge));
    assert_eq!(Reply::FileTooLarge.status(), 413);
}

#[test]
fn one_chunk_over_the_limit_fails_the_request() {
    for len in [MAX_UPLOAD_SIZE + 1, u64::MAX] {
        let mut session = session_in("/up");
        session.step(field("big"));
        session.step(Report::Probed { exists: false });
        session.step(Report::Created { ok: true });
        let step = session.step(Report::Chunk { len });
        assert_eq!(step.failure, Some(ServiceError::PayloadTooLarge));
        assert_eq!(session.pending(), Action::Respond(Reply::FileTooLarge));
    }
}

#[test]
fn counts_near_the_end_of_u64_do_not_wrap() {
    let mut session = session_in("/up");
    session.step(field("big"));
    session.step(Report::Probed { exists: false });
    session.step(Report::Created { ok: true });
    session.step(Report::Chunk { len: 5 });
    session.step(Report::Written { ok: true });
    let step = session.step(Report::Chunk { len: u64::MAX - 2 });
    assert_eq!(step.failure, Some(ServiceError::PayloadTooLarge));
    assert_eq!(session.pending(), Action::Respond(Reply::FileTooLarge));
}

#[test]
fn fields_after_an_oversized_file_are_not_processed() {
    let mut session = session_in("/up");
    store(&mut session, "first", 0, &[1]);
    session.step(field("big"));
    session.step(Report::Probed { exists: false });
    session.step(Report::Created { ok: true });
    session.step(Report::Chunk { len: MAX_UPLOAD_SIZE + 1 });
    for report in [
        Report::Written { ok: true },
        Report::EndOfField,
        field("later"),
        Report::Probed { exists: false },
        Report::Created { ok: true },
        Report::Chunk { len: 1 },
        Report::EndOfBody,
    ] {
        assert!(quiet(&session.step(report)));
        assert_eq!(session.pending(), Action::Respond(Reply::FileTooLarge));
    }
}

#[test]
fn a_malformed_body_is_refused_and_touches_nothing() {
    let mut session = session_in("/up");
    let step = session.step(Report::Malformed);
    assert_eq!(step.failure, Some(ServiceError::MalformedRequest));
    assert_eq!(step.event, None);
    assert_eq!(session.pending(), Action::Respond(Reply::InvalidMultipart));
    assert_eq!(Reply::InvalidMultipart.status(), 400);
    for report in [field("a"), Report::Probed { exists: false }, Report::EndOfBody] {
        assert!(quiet(&session.step(report)));
        assert_eq!(session.pending(), Action::Respond(Reply::InvalidMultipart));
    }
}

#[test]
fn a_body_that_breaks_off_inside_a_field_is_malformed() {
    let mut session = session_in("/up");
    session.step(field("a"));
    session.step(Report::Probed { exists: false });
    session.step(Report::Created { ok: true });
    session.step(Report::Chunk { len: 3 });
    session.step(Report::Written { ok: true });
    let step = session.step(Report::Malformed);
    assert_eq!(step.failure, Some(ServiceError::MalformedRequest));
    assert_eq!(step.event, None);
    assert_eq!(session.pending(), Action::Respond(Reply::InvalidMultipart));
}

#[test]
fn fields_without_a_file_name_are_ignored() {
    let mut session = session_in("/up");
    let step = session.step(Report::Field { file_name: None });
    assert!(quiet(&step));
    assert_eq!(session.pending(), Action::NextField);
    let events = store(&mut session, "a", 0, &[2]);
    assert_eq!(events.len(), 3);
    assert!(quiet(&session.step(Report::Field { file_name: None })));
    assert!(quiet(&session.step(Report::EndOfBody)));
    assert_eq!(session.pending(), Action::Respond(Reply::Done));
}

#[test]
fn a_file_with_an_empty_name_gets_the_fallback_name() {
    let mut session = session_in("/up");
    session.step(field(""));
    assert_eq!(session.pending(), Action::Probe(place("/up", "file", 0)));
    session.step(Report::Probed { exists: true });
    assert_eq!(session.pending(), Action::Probe(place("/up", "file_1", 1)));
    let step = session.step(Report::Probed { exists: false });
    assert_eq!(step.event, Some(started("file")));
}

#[test]
fn a_file_that_cannot_be_created_is_given_up() {
    let mut session = session_in("/up");
    session.step(field("a"));
    session.step(Report::Probed { exists: false });
    let step = session.step(Report::Created { ok: false });
    assert_eq!(step.failure, Some(ServiceError::IoError));
    assert_eq!(step.event, None);
    assert_eq!(session.pending(), Action::NextField);
    let events = store(&mut session, "b", 0, &[7]);
    assert_eq!(events, vec![started("b"), progress("b", 7), done("b")]);
    session.step(Report::EndOfBody);
    assert_eq!(session.pending(), Action::Respond(Reply::Done));
}

#[test]
fn a_file_that_cannot_be_written_is_given_up() {
    let mut session = session_in("/up");
    session.step(field("a"));
    session.step(Report::Probed { exists: false });
    session.step(Report::Created { ok: true });
    session.step(Report::Chunk { len: 9 });
    let step = session.step(Report::Written { ok: false });
    assert_eq!(step.failure, Some(ServiceError::IoError));
    assert_eq!(step.event, None);
    assert_eq!(session.pending(), Action::NextField);
    session.step(Report::EndOfBody);
    assert_eq!(session.pending(), Action::Respond(Reply::Done));
}

#[test]
fn reports_that_are_not_awaited_change_nothing() {
    let mut session = session_in("/up");
    for report in [
        Report::Probed { exists: false },
        Report::Created { ok: true },
        Report::Chunk { len: 1 },
        Report::EndOfField,
        Report::Written { ok: true },
    ] {
        assert!(quiet(&session.step(report)));
        assert_eq!(session.pending(), Action::NextField);
    }
    session.step(field("a"));
    for report in [
        field("b"),
        Report::EndOfBody,
        Report::Malformed,
        Report::Created { ok: true },
        Report::Chunk { len: 1 },
        Report::EndOfField,
        Report::Written { ok: true },
    ] {
        assert!(quiet(&session.step(report)));
        assert_eq!(session.pending(), Action::Probe(place("/up", "a", 0)));
    }
}

#[test]
fn two_files_of_one_name_in_one_request() {
    let mut session = session_in("/up");
    let mut directory: Vec<String> = Vec::new();
    let mut events = Vec::new();
    for _ in 0..2 {
        let mut step = session.step(field("a.txt"));
        loop {
            events.extend(step.event);
            match session.pending() {
                Action::Probe(path) => {
                    step = session.step(Report::Probed {
                        exists: directory.contains(&path.file_name),
                    });
                },
                Action::Create(path) => {
                    directory.push(path.file_name);
                    step = session.step(Report::Created { ok: true });
                },
                Action::NextChunk => {
                    step = session.step(Report::EndOfField);
                },
                _ => break,
            }
        }
    }
    assert_eq!(directory, vec!["a.txt".to_string(), "a_1.txt".to_string()]);
    assert_eq!(events, vec![started("a.txt"), done("a.txt"), started("a.txt"), done("a.txt")]);
}

#[test]
fn a_change_of_directory_reaches_later_sessions_only() {
    let mut registry = DirectoryRegistry::new("/old".to_string());
    let mut in_flight = session_in(&registry.get());
    in_flight.step(field("a"));
    assert_eq!(registry.set("/new".to_string(), true), Ok(()));
    assert_eq!(in_flight.dir(), "/old");
    assert_eq!(in_flight.pending(), Action::Probe(place("/old", "a", 0)));
    in_flight.step(Report::Probed { exists: false });
    assert_eq!(in_flight.pending(), Action::Create(place("/old", "a", 0)));
    in_flight.step(Report::Created { ok: true });
    in_flight.step(Report::EndOfField);
    in_flight.step(field("b"));
    assert_eq!(in_flight.pending(), Action::Probe(place("/old", "b", 0)));

    let mut later = session_in(&registry.get());
    later.step(field("a"));
    assert_eq!(later.dir(), "/new");
    assert_eq!(later.pending(), Action::Probe(place("/new", "a", 0)));
}
