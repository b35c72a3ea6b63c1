//! The data of the API: what a request is made of, and what a response holds.
//!
//! Each type with text or a list in it has a view, its mathematical value,
//! over which the contracts of the library are stated.

use vstd::prelude::*;
use vstd::std_specs::convert::FromSpecImpl;

use crate::error::{Fault, MediathekError};
use crate::json::{Json, JsonView};

pub mod duration_millisecs;
pub mod optional_duration_secs;
pub mod timestamp;

verus! {

/// One search condition: `query` is looked for in each of `fields`.
#[derive(Clone, Debug, PartialEq)]
pub struct Query {
    pub fields: Vec<QueryField>,
    pub query: String,
}

/// The mathematical value of a [`Query`].
pub struct QueryView {
    pub fields: Seq<QueryField>,
    pub query: Seq<char>,
}

impl View for Query {
    type V = QueryView;

    open spec fn view(&self) -> QueryView {
        QueryView { fields: self.fields@, query: self.query@ }
    }
}

/// A field of a media entry in which text can be searched.
#[derive(Copy, Clone, Debug, PartialEq, Eq, Structural)]
#[non_exhaustive]
pub enum QueryField {
    Topic,
    Title,
    Description,
    Channel,
}

impl QueryField {
    /// The name of the field in a request.
    pub open spec fn wire_name(self) -> Seq<char> {
        match self {
            QueryField::Topic => "topic"@,
            QueryField::Title => "title"@,
            QueryField::Description => "description"@,
            QueryField::Channel => "channel"@,
        }
    }

    /// The name of the field in a request.
    pub fn name(self) -> (name: &'static str)
        ensures
            name@ == self.wire_name(),
    {
        match self {
            QueryField::Topic => "topic",
            QueryField::Title => "title",
            QueryField::Description => "description",
            QueryField::Channel => "channel",
        }
    }

    /// Every field, in the order of their declaration.
    pub fn all() -> (fields: Vec<QueryField>)
        ensures
            fields@ == seq![
                QueryField::Topic,
                QueryField::Title,
                QueryField::Description,
                QueryField::Channel,
            ],
    {
        vec![QueryField::Topic, QueryField::Title, QueryField::Description, QueryField::Channel]
    }
}

/// A field by which results can be sorted.
#[derive(Copy, Clone, Debug, PartialEq, Eq, Structural)]
#[non_exhaustive]
pub enum SortField {
    Channel,
    Timestamp,
    Duration,
}

impl SortField {
    /// The name of the field in a request.
    pub open spec fn wire_name(self) -> Seq<char> {
        match self {
            SortField::Channel => "channel"@,
            SortField::Timestamp => "timestamp"@,
            SortField::Duration => "duration"@,
        }
    }

    /// The name of the field in a request.
    pub fn name(self) -> (name: &'static str)
        ensures
            name@ == self.wire_name(),
    {
        match self {
            SortField::Channel => "channel",
            SortField::Timestamp => "timestamp",
            SortField::Duration => "duration",
        }
    }
}

/// The direction in which results are sorted.
#[derive(Copy, Clone, Debug, PartialEq, Eq, Structural)]
pub enum SortOrder {
    Ascending,
    Descending,
}

impl SortOrder {
    /// The name of the direction in a request.
    pub open spec fn wire_name(self) -> Seq<char> {
        match self {
            SortOrder::Ascending => "asc"@,
            SortOrder::Descending => "desc"@,
        }
    }

    /// The name of the direction in a request.
    pub fn name(self) -> (name: &'static str)
        ensures
            name@ == self.wire_name(),
    {
        match self {
            SortOrder::Ascending => "asc",
            SortOrder::Descending => "desc",
        }
    }
}

/// Nanoseconds in one second.
pub const NANOS_PER_SEC: u32 = 1_000_000_000;

/// A span of time: whole seconds and the nanoseconds of one more second that
/// has begun.
#[derive(Copy, Clone, Debug, PartialEq, Eq)]
pub struct TimeSpan {
    secs: u64,
    nanos: u32,
}

impl View for TimeSpan {
    type V = nat;

    /// The span in nanoseconds.
    closed spec fn view(&self) -> nat {
        self.secs as nat * NANOS_PER_SEC as nat + self.nanos as nat
    }
}

impl TimeSpan {
    #[verifier::type_invariant]
    spec fn well_formed(self) -> bool {
        self.nanos < NANOS_PER_SEC
    }

    /// The span of `secs` seconds and `nanos` nanoseconds, where `nanos` is
    /// less than one second.
    pub fn new(secs: u64, nanos: u32) -> (span: Option<TimeSpan>)
        ensures
            span is Some <==> nanos < NANOS_PER_SEC,
            span matches Some(t) ==> t@ == secs as nat * NANOS_PER_SEC as nat + nanos as nat,
    {
        if nanos < NANOS_PER_SEC {
            Some(TimeSpan { secs, nanos })
        } else {
            None
        }
    }

    /// The span of `secs` whole seconds.
    pub fn from_secs(secs: u64) -> (span: TimeSpan)
        ensures
            span@ == secs as nat * NANOS_PER_SEC as nat,
    {
        TimeSpan { secs, nanos: 0 }
    }

    /// The whole seconds of the span.
    pub fn as_secs(&self) -> (secs: u64)
        ensures
            secs as nat == self@ / (NANOS_PER_SEC as nat),
    {
        proof {
            use_type_invariant(self);
        }
        self.secs
    }

    /// The nanoseconds of the span beyond its whole seconds.
    pub fn subsec_nanos(&self) -> (nanos: u32)
        ensures
            nanos as nat == self@ % (NANOS_PER_SEC as nat),
    {
        proof {
            use_type_invariant(self);
        }
        self.nanos
    }
}

/// The text of an optional string.
pub open spec fn optional_text(text: Option<String>) -> Option<Seq<char>> {
    match text {
        Some(s) => Some(s@),
        None => None,
    }
}

/// The length of an optional span of time.
pub open spec fn optional_span(span: Option<TimeSpan>) -> Option<nat> {
    match span {
        Some(t) => Some(t@),
        None => None,
    }
}

/// The texts of `strings`, one by one.
pub open spec fn texts(strings: Seq<String>) -> Seq<Seq<char>> {
    Seq::new(strings.len(), |i: int| strings[i]@)
}

/// One search result.
#[derive(Clone, Debug, PartialEq)]
pub struct Item {
    pub channel: String,
    pub topic: String,
    pub title: String,
    pub description: Option<String>,
    /// Seconds since the epoch.
    pub timestamp: i64,
    /// `None` where the length is not known, as of a livestream.
    pub duration: Option<TimeSpan>,
    /// The size in bytes.
    pub size: Option<usize>,
    pub url_website: String,
    pub url_subtitle: Option<String>,
    pub url_video: String,
    pub url_video_low: Option<String>,
    pub url_video_hd: Option<String>,
    pub filmliste_timestamp: i64,
    pub id: String,
}

/// The mathematical value of an [`Item`].
pub struct ItemView {
    pub channel: Seq<char>,
    pub topic: Seq<char>,
    pub title: Seq<char>,
    pub description: Option<Seq<char>>,
    pub timestamp: i64,
    /// In nanoseconds.
    pub duration: Option<nat>,
    pub size: Option<usize>,
    pub url_website: Seq<char>,
    pub url_subtitle: Option<Seq<char>>,
    pub url_video: Seq<char>,
    pub url_video_low: Option<Seq<char>>,
    pub url_video_hd: Option<Seq<char>>,
    pub filmliste_timestamp: i64,
    pub id: Seq<char>,
}

impl View for Item {
    type V = ItemView;

    open spec fn view(&self) -> ItemView {
        ItemView {
            channel: self.channel@,
            topic: self.topic@,
            title: self.title@,
            description: optional_text(self.description),
            timestamp: self.timestamp,
            duration: optional_span(self.duration),
            size: self.size,
            url_website: self.url_website@,
            url_subtitle: optional_text(self.url_subtitle),
            url_video: self.url_video@,
            url_video_low: optional_text(self.url_video_low),
            url_video_hd: optional_text(self.url_video_hd),
            filmliste_timestamp: self.filmliste_timestamp,
            id: self.id@,
        }
    }
}

/// What the server says of a search as a whole.
#[derive(Clone, Debug, PartialEq)]
pub struct QueryInfo {
    pub filmliste_timestamp: i64,
    pub result_count: usize,
    pub search_engine_time: TimeSpan,
    pub total_results: u64,
}

/// The mathematical value of a [`QueryInfo`].
pub struct QueryInfoView {
    pub filmliste_timestamp: i64,
    pub result_count: usize,
    /// In nanoseconds.
    pub search_engine_time: nat,
    pub total_results: u64,
}

impl View for QueryInfo {
    type V = QueryInfoView;

    open spec fn view(&self) -> QueryInfoView {
        QueryInfoView {
            filmliste_timestamp: self.filmliste_timestamp,
            result_count: self.result_count,
            search_engine_time: self.search_engine_time@,
            total_results: self.total_results,
        }
    }
}

/// The results of a search.
#[derive(Clone, Debug, PartialEq)]
pub struct QueryResult {
    pub query_info: QueryInfo,
    pub results: Vec<Item>,
}

/// The mathematical value of a [`QueryResult`].
pub struct QueryResultView {
    pub query_info: QueryInfoView,
    pub results: Seq<ItemView>,
}

/// The values of `items`, one by one.
pub open spec fn item_views(items: Seq<Item>) -> Seq<ItemView> {
    Seq::new(items.len(), |i: int| items[i]@)
}

impl View for QueryResult {
    type V = QueryResultView;

    open spec fn view(&self) -> QueryResultView {
        QueryResultView { query_info: self.query_info@, results: item_views(self.results@) }
    }
}

/// The messages with which the server turned a request down.
#[derive(Clone, Debug, PartialEq)]
pub struct ApiError(pub Vec<String>);

impl View for ApiError {
    type V = Seq<Seq<char>>;

    open spec fn view(&self) -> Seq<Seq<char>> {
        texts(self.0@)
    }
}

/// The envelope of every response: the server's messages, the payload, both
/// or neither.
#[derive(Clone, Debug, PartialEq)]
pub struct ApiResult<T> {
    pub err: Option<ApiError>,
    pub result: Option<T>,
}

impl<T> ApiResult<T> {
    /// What the envelope comes to: the server's messages where it holds
    /// any, with or without a payload; else the payload; else nothing.
    pub fn into_result(self) -> (r: Result<T, MediathekError>)
        ensures
            r == match self.err {
                Some(e) => Err::<T, MediathekError>(MediathekError::Response(e)),
                None => match self.result {
                    Some(payload) => Ok::<T, MediathekError>(payload),
                    None => Err::<T, MediathekError>(MediathekError::EmptyResponse),
                },
            },
    {
        match self.err {
            Some(e) => Err(MediathekError::Response(e)),
            None => match self.result {
                Some(payload) => Ok(payload),
                None => Err(MediathekError::EmptyResponse),
            },
        }
    }
}

impl<T> From<ApiResult<T>> for Result<T, MediathekError> {
    fn from(envelope: ApiResult<T>) -> (r: Result<T, MediathekError>) {
        envelope.into_result()
    }
}

impl<T> FromSpecImpl<ApiResult<T>> for Result<T, MediathekError> {
    open spec fn obeys_from_spec() -> bool {
        true
    }

    open spec fn from_spec(envelope: ApiResult<T>) -> Result<T, MediathekError> {
        match envelope.err {
            Some(e) => Err(MediathekError::Response(e)),
            None => match envelope.result {
                Some(payload) => Ok(payload),
                None => Err(MediathekError::EmptyResponse),
            },
        }
    }
}

/// The text `s`, or nothing where `s` is empty.
pub open spec fn empty_as_none(s: Seq<char>) -> Option<Seq<char>> {
    if s.len() == 0 {
        None
    } else {
        Some(s)
    }
}

/// The optional text that `value` stands for: a string, of which the empty
/// one says that there is no text.
pub open spec fn optional_text_of(value: JsonView) -> Result<Option<Seq<char>>, Fault> {
    match value {
        JsonView::Text(s) => Ok(empty_as_none(s)),
        _ => Err(Fault::WrongType),
    }
}

/// Reads an optional text from a string: no text from the empty string, and
/// from any other string that string.
pub fn empty_string_as_none(value: &Json) -> (r: Result<Option<String>, Fault>)
    ensures
        match r {
            Ok(text) => optional_text_of(value@) == Ok::<Option<Seq<char>>, Fault>(optional_text(text)),
            Err(fault) => optional_text_of(value@) == Err::<Option<Seq<char>>, Fault>(fault),
        },
        r matches Ok(Some(text)) ==> text@.len() > 0,
{
    match value {
        Json::Text(s) => {
            if s.as_str().is_empty() {
                Ok(None)
            } else {
                Ok(Some(s.clone()))
            }
        },
        _ => Err(Fault::WrongType),
    }
}

} // verus!
