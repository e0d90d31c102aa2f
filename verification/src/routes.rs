//! Which handler an HTTP request goes to, what can go wrong while it is
//! served, and what the client is told.

use vstd::prelude::*;

verus! {

/// The handlers of the service.
#[derive(Debug, Clone, Copy, PartialEq, Eq, Structural)]
pub enum Route {
    /// `GET /`: the page of the upload form.
    Index,
    /// `GET /main.js`: the script of that page.
    Script,
    /// `POST /upload`: files to store.
    Upload,
    /// `GET /events`: the stream of upload events.
    Events,
    /// `GET /info`: addresses, port and destination directory.
    Info,
    /// `POST /set_dir`: a new destination directory.
    SetDir,
}

/// What can go wrong while a request is served.
#[derive(Debug, Clone, Copy, PartialEq, Eq, Structural)]
pub enum ServiceError {
    /// The body is not multipart data with the boundary that was declared.
    MalformedRequest,
    /// A file is larger than the limit.
    PayloadTooLarge,
    /// The destination directory could not be created, or none was named.
    DirectoryError,
    /// A file could not be created or written. The file is given up; the
    /// request goes on.
    IoError,
    /// No handler serves the method and path.
    UnroutableRequest,
}

/// What the client is told.
#[derive(Debug, Clone, Copy, PartialEq, Eq, Structural)]
pub enum Reply {
    Done,
    InvalidMultipart,
    FileTooLarge,
    InvalidDirectory,
    NotFound,
}

/// The handler for `method` and `path`, if there is one: both must match
/// exactly.
pub open spec fn route_of(method: Seq<char>, path: Seq<char>) -> Option<Route> {
    if method == "GET"@ && path == "/"@ {
        Some(Route::Index)
    } else if method == "GET"@ && path == "/main.js"@ {
        Some(Route::Script)
    } else if method == "POST"@ && path == "/upload"@ {
        Some(Route::Upload)
    } else if method == "GET"@ && path == "/events"@ {
        Some(Route::Events)
    } else if method == "GET"@ && path == "/info"@ {
        Some(Route::Info)
    } else if method == "POST"@ && path == "/set_dir"@ {
        Some(Route::SetDir)
    } else {
        None
    }
}

/// Whether `text` reads exactly as `word`.
fn reads(text: &str, word: &str) -> (same: bool)
    ensures
        same == (text@ == word@),
{
    text.to_owned() == word.to_owned()
}

/// The handler for `method` and `path`. Where none serves them the request
/// is unroutable.
pub fn route(method: &str, path: &str) -> (handler: Result<Route, ServiceError>)
    ensures
        match route_of(method@, path@) {
            Some(found) => handler == Ok::<Route, ServiceError>(found),
            None => handler == Err::<Route, ServiceError>(ServiceError::UnroutableRequest),
        },
{
    let get = reads(method, "GET");
    let post = reads(method, "POST");
    if get && reads(path, "/") {
        Ok(Route::Index)
    } else if get && reads(path, "/main.js") {
        Ok(Route::Script)
    } else if post && reads(path, "/upload") {
        Ok(Route::Upload)
    } else if get && reads(path, "/events") {
        Ok(Route::Events)
    } else if get && reads(path, "/info") {
        Ok(Route::Info)
    } else if post && reads(path, "/set_dir") {
        Ok(Route::SetDir)
    } else {
        Err(ServiceError::UnroutableRequest)
    }
}

impl Route {
    /// The `content-type` of what the handler answers with, where it is
    /// fixed.
    pub fn content_type(&self) -> (value: Option<&'static str>)
        ensures
            match *self {
                Route::Index => value matches Some(v) && v@ == "text/html"@,
                Route::Script => value matches Some(v) && v@ == "application/javascript"@,
                Route::Events => value matches Some(v) && v@ == "text/event-stream"@,
                Route::Info => value matches Some(v) && v@ == "application/json"@,
                _ => value is None,
            },
    {
        match self {
            Route::Index => Some("text/html"),
            Route::Script => Some("application/javascript"),
            Route::Events => Some("text/event-stream"),
            Route::Info => Some("application/json"),
            _ => None,
        }
    }
}

impl Route {
    /// The `cache-control` of what the handler answers with: the event
    /// stream must not be cached.
    pub fn cache_control(&self) -> (value: Option<&'static str>)
        ensures
            match *self {
                Route::Events => value matches Some(v) && v@ == "no-cache"@,
                _ => value is None,
            },
    {
        match self {
            Route::Events => Some("no-cache"),
            _ => None,
        }
    }

    /// The `connection` header of what the handler answers with: the event
    /// stream is kept open.
    pub fn connection(&self) -> (value: Option<&'static str>)
        ensures
            match *self {
                Route::Events => value matches Some(v) && v@ == "keep-alive"@,
                _ => value is None,
            },
    {
        match self {
            Route::Events => Some("keep-alive"),
            _ => None,
        }
    }
}

impl Reply {
    /// The HTTP status of the reply.
    pub open spec fn status_code(self) -> u16 {
        match self {
            Reply::Done => 200,
            Reply::InvalidMultipart => 400,
            Reply::FileTooLarge => 413,
            Reply::InvalidDirectory => 400,
            Reply::NotFound => 404,
        }
    }

    /// The text of the reply.
    pub open spec fn body_text(self) -> Seq<char> {
        match self {
            Reply::Done => "ok"@,
            Reply::InvalidMultipart => "invalid multipart"@,
            Reply::FileTooLarge => "file too large"@,
            Reply::InvalidDirectory => "invalid"@,
            Reply::NotFound => "not found"@,
        }
    }

    /// The HTTP status of the reply.
    pub fn status(&self) -> (code: u16)
        ensures
            code == self.status_code(),
    {
        match self {
            Reply::Done => 200,
            Reply::InvalidMultipart => 400,
            Reply::FileTooLarge => 413,
            Reply::InvalidDirectory => 400,
            Reply::NotFound => 404,
        }
    }

    /// The text of the reply.
    pub fn body(&self) -> (text: &'static str)
        ensures
            text@ == self.body_text(),
    {
        match self {
            Reply::Done => "ok",
            Reply::InvalidMultipart => "invalid multipart",
            Reply::FileTooLarge => "file too large",
            Reply::InvalidDirectory => "invalid",
            Reply::NotFound => "not found",
        }
    }
}

impl ServiceError {
    /// What the client is told when the error ends its request. An I/O
    /// error ends no request, so it has no reply.
    pub open spec fn reply_of(self) -> Option<Reply> {
        match self {
            ServiceError::MalformedRequest => Some(Reply::InvalidMultipart),
            ServiceError::PayloadTooLarge => Some(Reply::FileTooLarge),
            ServiceError::DirectoryError => Some(Reply::InvalidDirectory),
            ServiceError::IoError => None,
            ServiceError::UnroutableRequest => Some(Reply::NotFound),
        }
    }

    /// What the client is told when the error ends its request.
    pub fn reply(&self) -> (reply: Option<Reply>)
        ensures
            reply == self.reply_of(),
    {
        match self {
            ServiceError::MalformedRequest => Some(Reply::InvalidMultipart),
            ServiceError::PayloadTooLarge => Some(Reply::FileTooLarge),
            ServiceError::DirectoryError => Some(Reply::InvalidDirectory),
            ServiceError::IoError => None,
            ServiceError::UnroutableRequest => Some(Reply::NotFound),
        }
    }
}

} // verus!
