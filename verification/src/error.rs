//! What can go wrong with a request.

use vstd::prelude::*;
use vstd::std_specs::convert::FromSpecImpl;

use crate::models::ApiError;

verus! {

/// The error type of the HTTP client. Nothing is known of what it holds.
#[verifier::external_type_specification]
#[verifier::external_body]
pub struct ExReqwestError(reqwest::Error);

/// `reqwest::Error::is_decode`: whether the error came up while the body of a
/// response was decoded. Nothing is claimed of the answer.
pub assume_specification[ reqwest::Error::is_decode ](e: &reqwest::Error) -> (decoding: bool)
;

/// A member of a response, by its place in the response.
#[derive(Copy, Clone, Debug, PartialEq, Eq, Structural)]
pub enum Key {
    /// The response as a whole.
    Response,
    /// The messages of the server, under `err`.
    Errors,
    /// The results and what is said of them, under `result`.
    Payload,
    QueryInfo,
    Results,
    FilmlisteTimestamp,
    ResultCount,
    SearchEngineTime,
    TotalResults,
    Channel,
    Topic,
    Title,
    Description,
    Timestamp,
    Duration,
    Size,
    UrlWebsite,
    UrlSubtitle,
    UrlVideo,
    UrlVideoLow,
    UrlVideoHd,
    Id,
}

impl Key {
    /// The key of the member on the wire; of the response as a whole, the
    /// empty text.
    pub open spec fn wire_name(self) -> Seq<char> {
        match self {
            Key::Response => ""@,
            Key::Errors => "err"@,
            Key::Payload => "result"@,
            Key::QueryInfo => "queryInfo"@,
            Key::Results => "results"@,
            Key::FilmlisteTimestamp => "filmlisteTimestamp"@,
            Key::ResultCount => "resultCount"@,
            Key::SearchEngineTime => "searchEngineTime"@,
            Key::TotalResults => "totalResults"@,
            Key::Channel => "channel"@,
            Key::Topic => "topic"@,
            Key::Title => "title"@,
            Key::Description => "description"@,
            Key::Timestamp => "timestamp"@,
            Key::Duration => "duration"@,
            Key::Size => "size"@,
            Key::UrlWebsite => "url_website"@,
            Key::UrlSubtitle => "url_subtitle"@,
            Key::UrlVideo => "url_video"@,
            Key::UrlVideoLow => "url_video_low"@,
            Key::UrlVideoHd => "url_video_hd"@,
            Key::Id => "id"@,
        }
    }

    /// The key of the member on the wire.
    pub fn name(self) -> (name: &'static str)
        ensures
            name@ == self.wire_name(),
    {
        match self {
            Key::Response => "",
            Key::Errors => "err",
            Key::Payload => "result",
            Key::QueryInfo => "queryInfo",
            Key::Results => "results",
            Key::FilmlisteTimestamp => "filmlisteTimestamp",
            Key::ResultCount => "resultCount",
            Key::SearchEngineTime => "searchEngineTime",
            Key::TotalResults => "totalResults",
            Key::Channel => "channel",
            Key::Topic => "topic",
            Key::Title => "title",
            Key::Description => "description",
            Key::Timestamp => "timestamp",
            Key::Duration => "duration",
            Key::Size => "size",
            Key::UrlWebsite => "url_website",
            Key::UrlSubtitle => "url_subtitle",
            Key::UrlVideo => "url_video",
            Key::UrlVideoLow => "url_video_low",
            Key::UrlVideoHd => "url_video_hd",
            Key::Id => "id",
        }
    }
}

/// Why a value could not be decoded.
#[derive(Copy, Clone, Debug, PartialEq, Eq, Structural)]
pub enum Fault {
    /// The member is not there.
    Missing,
    /// The value is of a JSON type that the member does not take.
    WrongType,
    /// The value is a string that does not hold what the member takes.
    Malformed,
    /// The value is a number too large or too small for the member.
    OutOfRange,
}

/// A member of a response that could not be decoded.
#[derive(Copy, Clone, Debug, PartialEq, Eq, Structural)]
pub struct DecodeError {
    pub key: Key,
    pub fault: Fault,
}

/// An error returned by this client.
#[derive(Debug)]
pub enum MediathekError {
    /// The request could not be sent, the response could not be received, or
    /// its status was not a success.
    Reqwest(reqwest::Error),
    /// The response holds neither results nor messages.
    EmptyResponse,
    /// The server turned the request down.
    Response(ApiError),
    /// The response is not of the form that the API describes.
    Decode(DecodeError),
}

/// The kinds of error, by what went wrong.
#[derive(Copy, Clone, Debug, PartialEq, Eq, Structural)]
pub enum ErrorKind {
    /// The request or the response did not get through, or the status of
    /// the response was not a success.
    Transport,
    /// The response holds neither results nor messages.
    EmptyResponse,
    /// The server turned the request down.
    Response,
    /// The body of the response is not JSON, or not of the form that the API
    /// describes.
    Decode,
}

impl MediathekError {
    /// The kind of the error, where `body_undecodable` says of an error of
    /// the HTTP client whether it came up while the body of the response was
    /// decoded.
    pub open spec fn kind_where(self, body_undecodable: bool) -> ErrorKind {
        match self {
            MediathekError::Reqwest(_) => if body_undecodable {
                ErrorKind::Decode
            } else {
                ErrorKind::Transport
            },
            MediathekError::EmptyResponse => ErrorKind::EmptyResponse,
            MediathekError::Response(_) => ErrorKind::Response,
            MediathekError::Decode(_) => ErrorKind::Decode,
        }
    }

    /// The kind of the error, where `body_undecodable` says of an error of
    /// the HTTP client whether it came up while the body of the response was
    /// decoded.
    pub fn classified(&self, body_undecodable: bool) -> (kind: ErrorKind)
        ensures
            kind == self.kind_where(body_undecodable),
    {
        match self {
            MediathekError::Reqwest(_) => if body_undecodable {
                ErrorKind::Decode
            } else {
                ErrorKind::Transport
            },
            MediathekError::EmptyResponse => ErrorKind::EmptyResponse,
            MediathekError::Response(_) => ErrorKind::Response,
            MediathekError::Decode(_) => ErrorKind::Decode,
        }
    }

    /// The kind of the error. An error of the HTTP client is one of
    /// decoding where the HTTP client says so, and one of transport
    /// otherwise.
    pub fn kind(&self) -> (kind: ErrorKind)
        ensures
            kind == self.kind_where(true) || kind == self.kind_where(false),
            !(self is Reqwest) ==> kind == self.kind_where(false),
    {
        match self {
            MediathekError::Reqwest(e) => self.classified(e.is_decode()),
            _ => self.classified(false),
        }
    }

    /// The summary of the error.
    pub open spec fn summary(self) -> Seq<char> {
        match self {
            MediathekError::Reqwest(_) => "HTTP request failed"@,
            MediathekError::EmptyResponse => "mediathekviewweb server returned an empty response"@,
            MediathekError::Response(_) => "mediathekviewweb server returned an error"@,
            MediathekError::Decode(_) => "mediathekviewweb server returned a response that could not be decoded"@,
        }
    }

    /// A short summary of the error, the same for every error of one kind.
    pub fn message(&self) -> (text: String)
        ensures
            text@ == self.summary(),
    {
        match self {
            MediathekError::Reqwest(_) => "HTTP request failed".to_owned(),
            MediathekError::EmptyResponse => "mediathekviewweb server returned an empty response".to_owned(),
            MediathekError::Response(_) => "mediathekviewweb server returned an error".to_owned(),
            MediathekError::Decode(_) => "mediathekviewweb server returned a response that could not be decoded".to_owned(),
        }
    }
}

impl From<reqwest::Error> for MediathekError {
    fn from(e: reqwest::Error) -> (error: MediathekError) {
        MediathekError::Reqwest(e)
    }
}

impl FromSpecImpl<reqwest::Error> for MediathekError {
    open spec fn obeys_from_spec() -> bool {
        true
    }

    open spec fn from_spec(e: reqwest::Error) -> MediathekError {
        MediathekError::Reqwest(e)
    }
}

impl From<ApiError> for MediathekError {
    fn from(e: ApiError) -> (error: MediathekError) {
        MediathekError::Response(e)
    }
}

impl FromSpecImpl<ApiError> for MediathekError {
    open spec fn obeys_from_spec() -> bool {
        true
    }

    open spec fn from_spec(e: ApiError) -> MediathekError {
        MediathekError::Response(e)
    }
}

impl From<DecodeError> for MediathekError {
    fn from(e: DecodeError) -> (error: MediathekError) {
        MediathekError::Decode(e)
    }
}

impl FromSpecImpl<DecodeError> for MediathekError {
    open spec fn obeys_from_spec() -> bool {
        true
    }

    open spec fn from_spec(e: DecodeError) -> MediathekError {
        MediathekError::Decode(e)
    }
}

} // verus!
