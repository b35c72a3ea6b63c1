//! The client and the builder of a request.
//!
//! The client holds the address of the server and the HTTP client that
//! carries the requests. A builder collects what one request asks for and
//! in the end gives the request as it goes over the wire; sending it, and
//! receiving the response, is the caller's part.

use vstd::prelude::*;

use crate::error::MediathekError;
use crate::json::Json;
use crate::models::{Query, QueryField, SortField, SortOrder, TimeSpan, NANOS_PER_SEC};
use crate::query::{payload_of, query_views, MediathekQuery, MediathekQueryView};
use crate::search::parsed;
use crate::text::{chars_of, text_of};

verus! {

/// The HTTP client. Nothing is known of what it holds.
#[verifier::external_type_specification]
#[verifier::external_body]
pub struct ExClient(reqwest::Client);

/// The value of an HTTP header. Nothing is known of what it holds.
#[verifier::external_type_specification]
#[verifier::external_body]
pub struct ExHeaderValue(reqwest::header::HeaderValue);

/// `reqwest::Client::builder`, `ClientBuilder::default_headers` and
/// `ClientBuilder::build`: an HTTP client that sends `user_agent` as the
/// `User-Agent` header of every request. Whether it can be built is for the
/// HTTP client to say, so nothing is claimed of the result.
#[verifier::external_body]
fn build_client(user_agent: reqwest::header::HeaderValue) -> Result<reqwest::Client, reqwest::Error> {
    let mut headers = reqwest::header::HeaderMap::new();
    headers.insert(reqwest::header::USER_AGENT, user_agent);
    reqwest::Client::builder().default_headers(headers).build()
}

/// `url` without the `/` at its end, if it has one there.
pub open spec fn without_trailing_slash(url: Seq<char>) -> Seq<char> {
    if url.len() > 0 && url.last() == '/' {
        url.drop_last()
    } else {
        url
    }
}

/// A client for a MediathekViewWeb server.
#[derive(Debug)]
pub struct Mediathek {
    base_url: String,
    http: reqwest::Client,
}

impl Mediathek {
    /// The address of the server, without a `/` behind it.
    pub closed spec fn address(self) -> Seq<char> {
        self.base_url@
    }

    /// The HTTP client that carries the requests.
    pub closed spec fn carrier(self) -> reqwest::Client {
        self.http
    }

    /// The address of the server.
    pub fn base_url(&self) -> (url: &str)
        ensures
            url@ == self.address(),
    {
        self.base_url.as_str()
    }

    /// The HTTP client that carries the requests.
    pub fn http(&self) -> (http: &reqwest::Client)
        ensures
            *http == self.carrier(),
    {
        &self.http
    }

    /// A client for the server at `base_url` on top of the HTTP client that
    /// was built for it, or the error with which building that failed.
    pub fn from_built(base_url: &str, built: Result<reqwest::Client, reqwest::Error>) -> (r: Result<
        Mediathek,
        MediathekError,
    >)
        ensures
            match built {
                Ok(http) => r matches Ok(m) && m.address() == without_trailing_slash(base_url@)
                    && m.carrier() == http,
                Err(e) => r matches Err(MediathekError::Reqwest(cause)) && cause == e,
            },
    {
        match built {
            Ok(http) => {
                let chars = chars_of(base_url);
                let n = chars.len();
                let address = if n > 0 && chars[n - 1] == '/' {
                    text_of(vstd::slice::slice_subrange(chars.as_slice(), 0, n - 1))
                } else {
                    base_url.to_owned()
                };
                assert(address@ =~= without_trailing_slash(base_url@));
                Ok(Mediathek { base_url: address, http })
            },
            Err(e) => Err(MediathekError::Reqwest(e)),
        }
    }

    /// A client for the official server at <https://mediathekviewweb.de>.
    ///
    /// `user_agent` goes with every request and tells the people who run the
    /// server which application is asking, and whom to write to about it.
    pub fn new(user_agent: reqwest::header::HeaderValue) -> (r: Result<Mediathek, MediathekError>)
        ensures
            r matches Ok(m) ==> m.address() == "https://mediathekviewweb.de"@,
            r matches Err(e) ==> e is Reqwest,
    {
        proof {
            reveal_strlit("https://mediathekviewweb.de");
        }
        Mediathek::new_with_url("https://mediathekviewweb.de", user_agent)
    }

    /// A client for the MediathekViewWeb server at `base_url`. One `/` at
    /// the end of `base_url` is dropped.
    ///
    /// `user_agent` goes with every request and tells the people who run the
    /// server which application is asking, and whom to write to about it.
    pub fn new_with_url(base_url: &str, user_agent: reqwest::header::HeaderValue) -> (r: Result<
        Mediathek,
        MediathekError,
    >)
        ensures
            r matches Ok(m) ==> m.address() == without_trailing_slash(base_url@),
            r matches Err(e) ==> e is Reqwest,
    {
        Mediathek::from_built(base_url, build_client(user_agent))
    }

    /// Starts a request with one condition: `query` is looked for in each of
    /// `fields`, of which there is one at least.
    pub fn query(&self, fields: Vec<QueryField>, query: &str) -> (builder: MediathekQueryBuilder<'_>)
        requires
            fields@.len() > 0,
        ensures
            builder@ == MediathekQueryView::empty().with_query(fields@, query@),
            builder@.well_formed(),
            builder.mediathek() == *self,
    {
        MediathekQueryBuilder::new(self).query(fields, query)
    }

    /// Starts a request with what the search string `query` stands for, in
    /// the syntax of the server's advanced search.
    pub fn query_string(&self, query: &str, search_everywhere: bool) -> (builder: MediathekQueryBuilder<
        '_,
    >)
        ensures
            builder@ == parsed(query@, search_everywhere),
            builder@.well_formed(),
            builder.mediathek() == *self,
    {
        MediathekQueryBuilder { client: self, query: MediathekQuery::from_search_string(query, search_everywhere) }
    }
}

/// The method of an HTTP request.
#[derive(Copy, Clone, Debug, PartialEq, Eq, Structural)]
pub enum Method {
    Post,
}

/// A request as it goes over the wire.
#[derive(Debug, PartialEq)]
pub struct Request {
    pub method: Method,
    /// Where the request goes.
    pub url: String,
    /// The `Content-Type` header of the request.
    pub content_type: String,
    pub body: Json,
}

/// The builder of one request to the `/api/query` endpoint.
#[derive(Debug)]
pub struct MediathekQueryBuilder<'client> {
    client: &'client Mediathek,
    query: MediathekQuery,
}

impl<'client> View for MediathekQueryBuilder<'client> {
    type V = MediathekQueryView;

    /// The request as it has been built so far.
    closed spec fn view(&self) -> MediathekQueryView {
        self.query@
    }
}

impl<'client> MediathekQueryBuilder<'client> {
    /// The client that the request is for.
    pub closed spec fn mediathek(self) -> Mediathek {
        *self.client
    }

    /// A builder for a request that asks for nothing yet.
    pub fn new(client: &'client Mediathek) -> (builder: Self)
        ensures
            builder@ == MediathekQueryView::empty(),
            builder.mediathek() == *client,
    {
        MediathekQueryBuilder { client, query: MediathekQuery::default() }
    }

    /// Adds a condition after those that are there: `query` is looked for in
    /// each of `fields`, of which there is one at least. The server finds
    /// what meets every condition.
    pub fn query(self, fields: Vec<QueryField>, query: &str) -> (builder: Self)
        requires
            fields@.len() > 0,
        ensures
            builder@ == self@.with_query(fields@, query@),
            builder.mediathek() == self.mediathek(),
            self@.well_formed() ==> builder@.well_formed(),
    {
        let mut builder = self;
        let ghost before = query_views(builder.query.queries@);
        let added = Query { fields, query: query.to_owned() };
        let ghost added_view = added@;
        builder.query.queries.push(added);
        assert(query_views(builder.query.queries@) =~= before.push(added_view));
        builder
    }

    /// Sets the minimum duration to the whole seconds of `duration_min`.
    pub fn duration_min(self, duration_min: TimeSpan) -> (builder: Self)
        ensures
            builder@ == self@.with_duration_min((duration_min@ / NANOS_PER_SEC as nat) as u64),
            builder.mediathek() == self.mediathek(),
    {
        let mut builder = self;
        builder.query.duration_min = Some(duration_min.as_secs());
        builder
    }

    /// Sets the maximum duration to the whole seconds of `duration_max`.
    pub fn duration_max(self, duration_max: TimeSpan) -> (builder: Self)
        ensures
            builder@ == self@.with_duration_max((duration_max@ / NANOS_PER_SEC as nat) as u64),
            builder.mediathek() == self.mediathek(),
    {
        let mut builder = self;
        builder.query.duration_max = Some(duration_max.as_secs());
        builder
    }

    /// Sets whether media that is broadcast in the future is found too.
    pub fn include_future(self, include_future: bool) -> (builder: Self)
        ensures
            builder@ == self@.with_future(include_future),
            builder.mediathek() == self.mediathek(),
    {
        let mut builder = self;
        builder.query.future = Some(include_future);
        builder
    }

    /// Sets the field by which the results are sorted.
    pub fn sort_by(self, sort_by: SortField) -> (builder: Self)
        ensures
            builder@ == self@.with_sort_by(sort_by),
            builder.mediathek() == self.mediathek(),
    {
        let mut builder = self;
        builder.query.sort_by = Some(sort_by);
        builder
    }

    /// Sets the direction in which the results are sorted.
    pub fn sort_order(self, sort_order: SortOrder) -> (builder: Self)
        ensures
            builder@ == self@.with_sort_order(sort_order),
            builder.mediathek() == self.mediathek(),
    {
        let mut builder = self;
        builder.query.sort_order = Some(sort_order);
        builder
    }

    /// Sets how many results the server sends at most: the size of a page.
    pub fn size(self, size: usize) -> (builder: Self)
        ensures
            builder@ == self@.with_size(size),
            builder.mediathek() == self.mediathek(),
    {
        let mut builder = self;
        builder.query.size = Some(size);
        builder
    }

    /// Sets how many results the server skips: where a page begins.
    pub fn offset(self, offset: usize) -> (builder: Self)
        ensures
            builder@ == self@.with_offset(offset),
            builder.mediathek() == self.mediathek(),
    {
        let mut builder = self;
        builder.query.offset = Some(offset);
        builder
    }

    /// The client that the request is for.
    pub fn client(&self) -> (client: &'client Mediathek)
        ensures
            *client == self.mediathek(),
    {
        self.client
    }

    /// The request as it has been built so far.
    pub fn as_query(&self) -> (query: &MediathekQuery)
        ensures
            query@ == self@,
    {
        &self.query
    }

    /// The request as it goes over the wire: posted to `/api/query` below
    /// the address of the server, as `text/plain`, with the request as its
    /// body. This ends the building: a builder gives one request.
    pub fn into_request(self) -> (request: Request)
        ensures
            request.method == Method::Post,
            request.url@ == self.mediathek().address() + "/api/query"@,
            request.content_type@ == "text/plain"@,
            request.body@ == payload_of(self@),
    {
        let mut url = self.client.base_url().to_owned();
        url.append("/api/query");
        Request {
            method: Method::Post,
            url,
            content_type: "text/plain".to_owned(),
            body: self.query.payload(),
        }
    }
}

} // verus!
