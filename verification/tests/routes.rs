use lan_ingest::routes::{route, Reply, Route, ServiceError};
use lan_ingest::{port, MAX_UPLOAD_SIZE, PORT};

#[test]
fn port_is_8080() {
    assert_eq!(port(), 8080);
    assert_eq!(PORT, 8080);
}

#[test]
fn upload_limit_is_four_gibibytes() {
    assert_eq!(MAX_UPLOAD_SIZE, 4 * 1024 * 1024 * 1024);
}

#[test]
fn every_handler_has_its_method_and_path() {
    assert_eq!(route("GET", "/"), Ok(Route::Index));
    assert_eq!(route("GET", "/main.js"), Ok(Route::Script));
    assert_eq!(route("POST", "/upload"), Ok(Route::Upload));
    assert_eq!(route("GET", "/events"), Ok(Route::Events));
    assert_eq!(route("GET", "/info"), Ok(Route::Info));
    assert_eq!(route("POST", "/set_dir"), Ok(Route::SetDir));
}

#[test]
fn an_unroutable_request_is_answered_with_not_found() {
    let error = route("GET", "/nothing").unwrap_err();
    assert_eq!(error, ServiceError::UnroutableRequest);
    let reply = error.reply().unwrap();
    assert_eq!((reply.status(), reply.body()), (404, "not found"));
}

#[test]
fn wrong_method_is_not_found() {
    assert_eq!(route("POST", "/"), Err(ServiceError::UnroutableRequest));
    assert_eq!(route("GET", "/upload"), Err(ServiceError::UnroutableRequest));
    assert_eq!(route("POST", "/events"), Err(ServiceError::UnroutableRequest));
    assert_eq!(route("GET", "/set_dir"), Err(ServiceError::UnroutableRequest));
    assert_eq!(route("PUT", "/upload"), Err(ServiceError::UnroutableRequest));
    assert_eq!(route("DELETE", "/info"), Err(ServiceError::UnroutableRequest));
}

#[test]
fn paths_match_exactly() {
    assert_eq!(route("GET", ""), Err(ServiceError::UnroutableRequest));
    assert_eq!(route("GET", "/events/"), Err(ServiceError::UnroutableRequest));
    assert_eq!(route("GET", "/Events"), Err(ServiceError::UnroutableRequest));
    assert_eq!(route("get", "/events"), Err(ServiceError::UnroutableRequest));
    assert_eq!(route("POST", "/upload?x=1"), Err(ServiceError::UnroutableRequest));
    assert_eq!(route("GET", "/nothing"), Err(ServiceError::UnroutableRequest));
}

#[test]
fn content_types() {
    assert_eq!(Route::Index.content_type(), Some("text/html"));
    assert_eq!(Route::Script.content_type(), Some("application/javascript"));
    assert_eq!(Route::Events.content_type(), Some("text/event-stream"));
    assert_eq!(Route::Info.content_type(), Some("application/json"));
    assert_eq!(Route::Upload.content_type(), None);
    assert_eq!(Route::SetDir.content_type(), None);
}

#[test]
fn only_the_event_stream_is_kept_open_and_uncached() {
    assert_eq!(Route::Events.cache_control(), Some("no-cache"));
    assert_eq!(Route::Events.connection(), Some("keep-alive"));
    for other in [Route::Index, Route::Script, Route::Upload, Route::Info, Route::SetDir] {
        assert_eq!(other.cache_control(), None);
        assert_eq!(other.connection(), None);
    }
}

#[test]
fn replies_have_status_and_text() {
    assert_eq!((Reply::Done.status(), Reply::Done.body()), (200, "ok"));
    assert_eq!(
        (Reply::InvalidMultipart.status(), Reply::InvalidMultipart.body()),
        (400, "invalid multipart")
    );
    assert_eq!((Reply::FileTooLarge.status(), Reply::FileTooLarge.body()), (413, "file too large"));
    assert_eq!((Reply::InvalidDirectory.status(), Reply::InvalidDirectory.body()), (400, "invalid"));
    assert_eq!((Reply::NotFound.status(), Reply::NotFound.body()), (404, "not found"));
}

#[test]
fn errors_and_their_replies() {
    assert_eq!(ServiceError::MalformedRequest.reply(), Some(Reply::InvalidMultipart));
    assert_eq!(ServiceError::PayloadTooLarge.reply(), Some(Reply::FileTooLarge));
    assert_eq!(ServiceError::DirectoryError.reply(), Some(Reply::InvalidDirectory));
    assert_eq!(ServiceError::UnroutableRequest.reply(), Some(Reply::NotFound));
    assert_eq!(ServiceError::IoError.reply(), None);
}
