use vstd::prelude::*;

verus! {

/// What a fetcher reports for one request.
#[derive(Debug)]
pub enum Response {
    Success { body: Vec<u8>, mime: Option<String> },
    InvalidBody,
    NotFound,
    NetworkError,
}

/// The recoverable ways in which a download can fail.
#[derive(Debug, Clone, Copy, PartialEq, Eq, Structural)]
pub enum DownloadError {
    NotFound,
    NetworkError,
    InvalidUrl,
    InvalidBody,
}

/// The raw outcome of one HTTP GET, as a transport hands it over.
#[derive(Debug)]
pub enum HttpOutcome {
    /// A non-error status whose body was read in full, with the verbatim
    /// `Content-Type` header when there was one.
    Body { status: u16, body: Vec<u8>, mime: Option<String> },
    /// A non-error status whose body could not be read in full.
    BodyUnreadable,
    /// An error status code.
    Status(u16),
    /// Any failure below HTTP: refused connection, DNS, timeout.
    Transport,
}

/// Something that can fetch a URL: a real HTTP client, or a scripted
/// stand-in.
pub trait FileDownloader {
    /// `r` is an answer that this fetcher may give for `url`. A fetcher that
    /// describes its answers overrides this; by default any answer may come.
    open spec fn answers(&self, url: Seq<char>, r: Response) -> bool {
        true
    }

    fn fetch(&self, url: &str) -> (r: Response)
        ensures
            self.answers(url@, r),
    ;
}

impl Response {
    pub fn ok(body: Vec<u8>, mime: Option<String>) -> (r: Self)
        ensures
            r == (Response::Success { body, mime }),
    {
        Response::Success { body, mime }
    }

    pub fn invalid_body() -> (r: Self)
        ensures
            r == Response::InvalidBody,
    {
        Response::InvalidBody
    }

    pub fn not_found() -> (r: Self)
        ensures
            r == Response::NotFound,
    {
        Response::NotFound
    }

    pub fn network_error() -> (r: Self)
        ensures
            r == Response::NetworkError,
    {
        Response::NetworkError
    }

    /// The response that an HTTP outcome stands for: status 200 with a
    /// readable body is `Success`, an unreadable body is `InvalidBody`,
    /// status 404 is `NotFound`, every other status and transport failure is
    /// `NetworkError`.
    pub open spec fn spec_from_http(outcome: HttpOutcome) -> Response {
        match outcome {
            HttpOutcome::Body { status, body, mime } => if status == 200 {
                Response::Success { body, mime }
            } else if status == 404 {
                Response::NotFound
            } else {
                Response::NetworkError
            },
            HttpOutcome::BodyUnreadable => Response::InvalidBody,
            HttpOutcome::Status(code) => if code == 404 {
                Response::NotFound
            } else {
                Response::NetworkError
            },
            HttpOutcome::Transport => Response::NetworkError,
        }
    }

    pub fn from_http(outcome: HttpOutcome) -> (r: Self)
        ensures
            r == Self::spec_from_http(outcome),
    {
        match outcome {
            HttpOutcome::Body { status, body, mime } => if status == 200 {
                Response::Success { body, mime }
            } else if status == 404 {
                Response::NotFound
            } else {
                Response::NetworkError
            },
            HttpOutcome::BodyUnreadable => Response::InvalidBody,
            HttpOutcome::Status(code) => if code == 404 {
                Response::NotFound
            } else {
                Response::NetworkError
            },
            HttpOutcome::Transport => Response::NetworkError,
        }
    }
}

/// The error that a failed response becomes; `None` for `Success`.
pub open spec fn error_of(r: Response) -> Option<DownloadError> {
    match r {
        Response::Success { .. } => None,
        Response::InvalidBody => Some(DownloadError::InvalidBody),
        Response::NotFound => Some(DownloadError::NotFound),
        Response::NetworkError => Some(DownloadError::NetworkError),
    }
}

} // verus!
