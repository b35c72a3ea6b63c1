//! Decoding of a response.
//!
//! A response is an object with the members `err` and `result`. Each member of
//! it is decoded strictly: a member that is missing, or holds a value of
//! another type than it takes, fails the whole response. Within that, a point
//! in time may be a number or a string, an absent text is the empty string,
//! and an unknown duration is the empty string.
//!
//! The members of an object are decoded in a fixed order, and the first that
//! fails gives the error.

use vstd::prelude::*;

use crate::error::{DecodeError, Fault, Key, MediathekError};
use crate::json::{items_view, lemma_list_view, Json, JsonView};
use crate::models::duration_millisecs;
use crate::models::optional_duration_secs;
use crate::models::timestamp;
use crate::models::{
    empty_string_as_none, item_views, optional_text, optional_text_of, texts, ApiError, ApiResult, Item,
    ItemView, QueryInfo, QueryInfoView, QueryResult, QueryResultView, TimeSpan,
};

verus! {

/// The error of a member of which nothing is to be said but its fault.
pub open spec fn at<T>(key: Key, value: Result<T, Fault>) -> Result<T, DecodeError> {
    match value {
        Ok(v) => Ok(v),
        Err(fault) => Err(DecodeError { key, fault }),
    }
}

/// The member `key` of `record`, which has to be there.
pub open spec fn member_at(record: JsonView, key: Key) -> Result<JsonView, Fault> {
    match record.field(key.wire_name()) {
        Some(v) => Ok(v),
        None => Err(Fault::Missing),
    }
}

/// The text that `value` stands for: a string.
pub open spec fn text_of_value(value: JsonView) -> Result<Seq<char>, Fault> {
    match value {
        JsonView::Text(s) => Ok(s),
        _ => Err(Fault::WrongType),
    }
}

/// The count that `value` stands for: a number from 0 to `usize::MAX`.
pub open spec fn count_of(value: JsonView) -> Result<usize, Fault> {
    match value {
        JsonView::Integer(n) => if 0 <= n <= usize::MAX {
            Ok(n as usize)
        } else {
            Err(Fault::OutOfRange)
        },
        _ => Err(Fault::WrongType),
    }
}

/// The total that `value` stands for: a number from 0 to `u64::MAX`.
pub open spec fn total_of(value: JsonView) -> Result<u64, Fault> {
    match value {
        JsonView::Integer(n) => if 0 <= n <= u64::MAX {
            Ok(n as u64)
        } else {
            Err(Fault::OutOfRange)
        },
        _ => Err(Fault::WrongType),
    }
}

/// The text of the member `key`.
pub open spec fn text_at(record: JsonView, key: Key) -> Result<Seq<char>, DecodeError> {
    at(
        key,
        match member_at(record, key) {
            Ok(v) => text_of_value(v),
            Err(fault) => Err(fault),
        },
    )
}

/// The optional text of the member `key`.
pub open spec fn optional_text_at(record: JsonView, key: Key) -> Result<Option<Seq<char>>, DecodeError> {
    at(
        key,
        match member_at(record, key) {
            Ok(v) => optional_text_of(v),
            Err(fault) => Err(fault),
        },
    )
}

/// The point in time of the member `key`.
pub open spec fn timestamp_at(record: JsonView, key: Key) -> Result<i64, DecodeError> {
    at(
        key,
        match member_at(record, key) {
            Ok(v) => timestamp::decoded(v),
            Err(fault) => Err(fault),
        },
    )
}

/// The length of the member `key`, in nanoseconds.
pub open spec fn duration_at(record: JsonView, key: Key) -> Result<Option<nat>, DecodeError> {
    at(
        key,
        match member_at(record, key) {
            Ok(v) => optional_duration_secs::decoded(v),
            Err(fault) => Err(fault),
        },
    )
}

/// The span of the member `key`, in nanoseconds.
pub open spec fn seconds_at(record: JsonView, key: Key) -> Result<nat, DecodeError> {
    at(
        key,
        match member_at(record, key) {
            Ok(v) => duration_millisecs::decoded(v),
            Err(fault) => Err(fault),
        },
    )
}

/// The count of the member `key`.
pub open spec fn count_at(record: JsonView, key: Key) -> Result<usize, DecodeError> {
    at(
        key,
        match member_at(record, key) {
            Ok(v) => count_of(v),
            Err(fault) => Err(fault),
        },
    )
}

/// The total of the member `key`.
pub open spec fn total_at(record: JsonView, key: Key) -> Result<u64, DecodeError> {
    at(
        key,
        match member_at(record, key) {
            Ok(v) => total_of(v),
            Err(fault) => Err(fault),
        },
    )
}

/// The count of the member `key`, which may be missing or `null`.
pub open spec fn optional_count_at(record: JsonView, key: Key) -> Result<Option<usize>, DecodeError> {
    at(
        key,
        match record.field(key.wire_name()) {
            None => Ok(None),
            Some(JsonView::Null) => Ok(None),
            Some(v) => match count_of(v) {
                Ok(n) => Ok(Some(n)),
                Err(fault) => Err(fault),
            },
        },
    )
}

/// The error of `value`, if it is one.
pub open spec fn fault_of<T>(value: Result<T, DecodeError>) -> Option<DecodeError> {
    match value {
        Ok(_) => None,
        Err(e) => Some(e),
    }
}

/// The first error among the members of an item, in the order in which they
/// are decoded.
pub open spec fn item_fault(v: JsonView) -> Option<DecodeError> {
    if !(v is Record) {
        Some(DecodeError { key: Key::Results, fault: Fault::WrongType })
    } else if text_at(v, Key::Channel) is Err {
        fault_of(text_at(v, Key::Channel))
    } else if text_at(v, Key::Topic) is Err {
        fault_of(text_at(v, Key::Topic))
    } else if text_at(v, Key::Title) is Err {
        fault_of(text_at(v, Key::Title))
    } else if optional_text_at(v, Key::Description) is Err {
        fault_of(optional_text_at(v, Key::Description))
    } else if timestamp_at(v, Key::Timestamp) is Err {
        fault_of(timestamp_at(v, Key::Timestamp))
    } else if duration_at(v, Key::Duration) is Err {
        fault_of(duration_at(v, Key::Duration))
    } else if optional_count_at(v, Key::Size) is Err {
        fault_of(optional_count_at(v, Key::Size))
    } else if text_at(v, Key::UrlWebsite) is Err {
        fault_of(text_at(v, Key::UrlWebsite))
    } else if optional_text_at(v, Key::UrlSubtitle) is Err {
        fault_of(optional_text_at(v, Key::UrlSubtitle))
    } else if text_at(v, Key::UrlVideo) is Err {
        fault_of(text_at(v, Key::UrlVideo))
    } else if optional_text_at(v, Key::UrlVideoLow) is Err {
        fault_of(optional_text_at(v, Key::UrlVideoLow))
    } else if optional_text_at(v, Key::UrlVideoHd) is Err {
        fault_of(optional_text_at(v, Key::UrlVideoHd))
    } else if timestamp_at(v, Key::FilmlisteTimestamp) is Err {
        fault_of(timestamp_at(v, Key::FilmlisteTimestamp))
    } else {
        fault_of(text_at(v, Key::Id))
    }
}

/// The item that `v` stands for, where none of its members has an error.
pub open spec fn item_value(v: JsonView) -> ItemView {
    ItemView {
        channel: text_at(v, Key::Channel)->Ok_0,
        topic: text_at(v, Key::Topic)->Ok_0,
        title: text_at(v, Key::Title)->Ok_0,
        description: optional_text_at(v, Key::Description)->Ok_0,
        timestamp: timestamp_at(v, Key::Timestamp)->Ok_0,
        duration: duration_at(v, Key::Duration)->Ok_0,
        size: optional_count_at(v, Key::Size)->Ok_0,
        url_website: text_at(v, Key::UrlWebsite)->Ok_0,
        url_subtitle: optional_text_at(v, Key::UrlSubtitle)->Ok_0,
        url_video: text_at(v, Key::UrlVideo)->Ok_0,
        url_video_low: optional_text_at(v, Key::UrlVideoLow)->Ok_0,
        url_video_hd: optional_text_at(v, Key::UrlVideoHd)->Ok_0,
        filmliste_timestamp: timestamp_at(v, Key::FilmlisteTimestamp)->Ok_0,
        id: text_at(v, Key::Id)->Ok_0,
    }
}

/// The item that `v` stands for.
pub open spec fn item_of(v: JsonView) -> Result<ItemView, DecodeError> {
    match item_fault(v) {
        Some(e) => Err(e),
        None => Ok(item_value(v)),
    }
}

/// The items that `list` stands for; the error of the first that has one.
pub open spec fn items_of(list: Seq<JsonView>) -> Result<Seq<ItemView>, DecodeError>
    decreases list.len(),
{
    if list.len() == 0 {
        Ok(Seq::empty())
    } else {
        match items_of(list.drop_last()) {
            Err(e) => Err(e),
            Ok(items) => match item_of(list.last()) {
                Err(e) => Err(e),
                Ok(item) => Ok(items.push(item)),
            },
        }
    }
}

/// The first error among the members of what is said of a search.
pub open spec fn info_fault(v: JsonView) -> Option<DecodeError> {
    if !(v is Record) {
        Some(DecodeError { key: Key::QueryInfo, fault: Fault::WrongType })
    } else if timestamp_at(v, Key::FilmlisteTimestamp) is Err {
        fault_of(timestamp_at(v, Key::FilmlisteTimestamp))
    } else if count_at(v, Key::ResultCount) is Err {
        fault_of(count_at(v, Key::ResultCount))
    } else if seconds_at(v, Key::SearchEngineTime) is Err {
        fault_of(seconds_at(v, Key::SearchEngineTime))
    } else {
        fault_of(total_at(v, Key::TotalResults))
    }
}

/// What `v` says of a search.
pub open spec fn info_of(v: JsonView) -> Result<QueryInfoView, DecodeError> {
    match info_fault(v) {
        Some(e) => Err(e),
        None => Ok(
            QueryInfoView {
                filmliste_timestamp: timestamp_at(v, Key::FilmlisteTimestamp)->Ok_0,
                result_count: count_at(v, Key::ResultCount)->Ok_0,
                search_engine_time: seconds_at(v, Key::SearchEngineTime)->Ok_0,
                total_results: total_at(v, Key::TotalResults)->Ok_0,
            },
        ),
    }
}

/// The items under `results`.
pub open spec fn results_at(v: JsonView) -> Result<Seq<ItemView>, DecodeError> {
    match v.field(Key::Results.wire_name()) {
        None => Err(DecodeError { key: Key::Results, fault: Fault::Missing }),
        Some(JsonView::List(list)) => items_of(list),
        Some(_) => Err(DecodeError { key: Key::Results, fault: Fault::WrongType }),
    }
}

/// The results of a search that `v` stands for: what `queryInfo` says, then
/// the items under `results`.
pub open spec fn query_result_of(v: JsonView) -> Result<QueryResultView, DecodeError> {
    if !(v is Record) {
        Err(DecodeError { key: Key::Payload, fault: Fault::WrongType })
    } else {
        match v.field(Key::QueryInfo.wire_name()) {
            None => Err(DecodeError { key: Key::QueryInfo, fault: Fault::Missing }),
            Some(info) => match info_of(info) {
                Err(e) => Err(e),
                Ok(query_info) => match results_at(v) {
                    Err(e) => Err(e),
                    Ok(results) => Ok(QueryResultView { query_info, results }),
                },
            },
        }
    }
}

/// The messages that `list` stands for: each item a string.
pub open spec fn messages_of(list: Seq<JsonView>) -> Result<Seq<Seq<char>>, Fault> {
    if forall|i: int| 0 <= i < list.len() ==> (#[trigger] list[i]) is Text {
        Ok(Seq::new(list.len(), |i: int| list[i]->Text_0))
    } else {
        Err(Fault::WrongType)
    }
}

/// The envelope of a response, decoded.
pub struct EnvelopeView {
    pub err: Option<Seq<Seq<char>>>,
    pub result: Option<QueryResultView>,
}

/// The messages under `err`, which may be missing or `null`.
pub open spec fn err_at(v: JsonView) -> Result<Option<Seq<Seq<char>>>, DecodeError> {
    at(
        Key::Errors,
        match v.field(Key::Errors.wire_name()) {
            None => Ok(None),
            Some(JsonView::Null) => Ok(None),
            Some(JsonView::List(list)) => match messages_of(list) {
                Ok(messages) => Ok(Some(messages)),
                Err(fault) => Err(fault),
            },
            Some(_) => Err(Fault::WrongType),
        },
    )
}

/// The payload under `result`, which may be missing or `null`.
pub open spec fn result_at(v: JsonView) -> Result<Option<QueryResultView>, DecodeError> {
    match v.field(Key::Payload.wire_name()) {
        None => Ok(None),
        Some(JsonView::Null) => Ok(None),
        Some(payload) => match query_result_of(payload) {
            Ok(result) => Ok(Some(result)),
            Err(e) => Err(e),
        },
    }
}

/// The envelope that `v` stands for: `err` is decoded first, then `result`.
pub open spec fn envelope_of(v: JsonView) -> Result<EnvelopeView, DecodeError> {
    if !(v is Record) {
        Err(DecodeError { key: Key::Response, fault: Fault::WrongType })
    } else {
        match err_at(v) {
            Err(e) => Err(e),
            Ok(err) => match result_at(v) {
                Err(e) => Err(e),
                Ok(result) => Ok(EnvelopeView { err, result }),
            },
        }
    }
}

/// How a request ended.
pub enum Outcome {
    /// The server answered with results.
    Results(QueryResultView),
    /// The server turned the request down, with these messages.
    Refused(Seq<Seq<char>>),
    /// The server answered with nothing.
    Empty,
    /// The answer could not be decoded.
    Undecodable(DecodeError),
    /// The request or the answer did not get through.
    Transport,
}

/// What an envelope comes to. Messages of the server decide, whether or not
/// there is a payload beside them.
pub open spec fn collapsed(envelope: EnvelopeView) -> Outcome {
    match envelope.err {
        Some(messages) => Outcome::Refused(messages),
        None => match envelope.result {
            Some(result) => Outcome::Results(result),
            None => Outcome::Empty,
        },
    }
}

/// What the response `v` comes to.
pub open spec fn response_of(v: JsonView) -> Outcome {
    match envelope_of(v) {
        Err(e) => Outcome::Undecodable(e),
        Ok(envelope) => collapsed(envelope),
    }
}

/// How the request ended of which `r` is the result.
pub open spec fn outcome_of(r: Result<QueryResult, MediathekError>) -> Outcome {
    match r {
        Ok(result) => Outcome::Results(result@),
        Err(MediathekError::Response(e)) => Outcome::Refused(e@),
        Err(MediathekError::EmptyResponse) => Outcome::Empty,
        Err(MediathekError::Decode(e)) => Outcome::Undecodable(e),
        Err(MediathekError::Reqwest(_)) => Outcome::Transport,
    }
}

/// The mathematical value of a decoded envelope.
pub open spec fn envelope_view(envelope: ApiResult<QueryResult>) -> EnvelopeView {
    EnvelopeView {
        err: match envelope.err {
            Some(e) => Some(e@),
            None => None,
        },
        result: match envelope.result {
            Some(r) => Some(r@),
            None => None,
        },
    }
}

/// Once a prefix of a list has failed, the list fails with the same error.
pub proof fn lemma_items_error_persists(list: Seq<JsonView>, k: int, e: DecodeError)
    requires
        0 <= k <= list.len(),
        items_of(list.take(k)) == Err::<Seq<ItemView>, DecodeError>(e),
    ensures
        items_of(list) == Err::<Seq<ItemView>, DecodeError>(e),
    decreases list.len(),
{
    if k == list.len() {
        assert(list.take(k) =~= list);
    } else {
        assert(list.drop_last().take(k) =~= list.take(k));
        lemma_items_error_persists(list.drop_last(), k, e);
    }
}

fn member<'a>(record: &'a Json, key: Key) -> (r: Result<&'a Json, Fault>)
    ensures
        match r {
            Ok(v) => member_at(record@, key) == Ok::<JsonView, Fault>(v@),
            Err(fault) => member_at(record@, key) == Err::<JsonView, Fault>(fault),
        },
{
    match record.get(key.name()) {
        Some(v) => Ok(v),
        None => Err(Fault::Missing),
    }
}

fn located<T>(key: Key, value: Result<T, Fault>) -> (r: Result<T, DecodeError>)
    ensures
        r == at(key, value),
{
    match value {
        Ok(v) => Ok(v),
        Err(fault) => Err(DecodeError { key, fault }),
    }
}

fn text_value(value: &Json) -> (r: Result<String, Fault>)
    ensures
        match r {
            Ok(s) => text_of_value(value@) == Ok::<Seq<char>, Fault>(s@),
            Err(fault) => text_of_value(value@) == Err::<Seq<char>, Fault>(fault),
        },
{
    match value {
        Json::Text(s) => Ok(s.clone()),
        _ => Err(Fault::WrongType),
    }
}

fn count_value(value: &Json) -> (r: Result<usize, Fault>)
    ensures
        r == count_of(value@),
{
    match value {
        Json::Integer(n) => {
            if 0 <= *n && *n <= usize::MAX as i128 {
                Ok(*n as usize)
            } else {
                Err(Fault::OutOfRange)
            }
        },
        _ => Err(Fault::WrongType),
    }
}

fn total_value(value: &Json) -> (r: Result<u64, Fault>)
    ensures
        r == total_of(value@),
{
    match value {
        Json::Integer(n) => {
            if 0 <= *n && *n <= 0xffff_ffff_ffff_ffff {
                Ok(*n as u64)
            } else {
                Err(Fault::OutOfRange)
            }
        },
        _ => Err(Fault::WrongType),
    }
}

fn text_member(record: &Json, key: Key) -> (r: Result<String, DecodeError>)
    ensures
        match r {
            Ok(s) => text_at(record@, key) == Ok::<Seq<char>, DecodeError>(s@),
            Err(e) => text_at(record@, key) == Err::<Seq<char>, DecodeError>(e),
        },
{
    match member(record, key) {
        Ok(v) => match text_value(v) {
            Ok(s) => Ok(s),
            Err(fault) => Err(DecodeError { key, fault }),
        },
        Err(fault) => Err(DecodeError { key, fault }),
    }
}

fn optional_text_member(record: &Json, key: Key) -> (r: Result<Option<String>, DecodeError>)
    ensures
        match r {
            Ok(s) => optional_text_at(record@, key) == Ok::<Option<Seq<char>>, DecodeError>(
                optional_text(s),
            ),
            Err(e) => optional_text_at(record@, key) == Err::<Option<Seq<char>>, DecodeError>(e),
        },
{
    match member(record, key) {
        Ok(v) => match empty_string_as_none(v) {
            Ok(s) => Ok(s),
            Err(fault) => Err(DecodeError { key, fault }),
        },
        Err(fault) => Err(DecodeError { key, fault }),
    }
}

fn timestamp_member(record: &Json, key: Key) -> (r: Result<i64, DecodeError>)
    ensures
        r == timestamp_at(record@, key),
{
    match member(record, key) {
        Ok(v) => located(key, timestamp::deserialize(v)),
        Err(fault) => Err(DecodeError { key, fault }),
    }
}

fn duration_member(record: &Json, key: Key) -> (r: Result<Option<TimeSpan>, DecodeError>)
    ensures
        match r {
            Ok(Some(t)) => duration_at(record@, key) == Ok::<Option<nat>, DecodeError>(Some(t@)),
            Ok(None) => duration_at(record@, key) == Ok::<Option<nat>, DecodeError>(None),
            Err(e) => duration_at(record@, key) == Err::<Option<nat>, DecodeError>(e),
        },
{
    match member(record, key) {
        Ok(v) => match optional_duration_secs::deserialize(v) {
            Ok(d) => Ok(d),
            Err(fault) => Err(DecodeError { key, fault }),
        },
        Err(fault) => Err(DecodeError { key, fault }),
    }
}

fn seconds_member(record: &Json, key: Key) -> (r: Result<TimeSpan, DecodeError>)
    ensures
        match r {
            Ok(t) => seconds_at(record@, key) == Ok::<nat, DecodeError>(t@),
            Err(e) => seconds_at(record@, key) == Err::<nat, DecodeError>(e),
        },
{
    match member(record, key) {
        Ok(v) => match duration_millisecs::deserialize(v) {
            Ok(t) => Ok(t),
            Err(fault) => Err(DecodeError { key, fault }),
        },
        Err(fault) => Err(DecodeError { key, fault }),
    }
}

fn count_member(record: &Json, key: Key) -> (r: Result<usize, DecodeError>)
    ensures
        r == count_at(record@, key),
{
    match member(record, key) {
        Ok(v) => located(key, count_value(v)),
        Err(fault) => Err(DecodeError { key, fault }),
    }
}

fn total_member(record: &Json, key: Key) -> (r: Result<u64, DecodeError>)
    ensures
        r == total_at(record@, key),
{
    match member(record, key) {
        Ok(v) => located(key, total_value(v)),
        Err(fault) => Err(DecodeError { key, fault }),
    }
}

fn optional_count_member(record: &Json, key: Key) -> (r: Result<Option<usize>, DecodeError>)
    ensures
        r == optional_count_at(record@, key),
{
    match record.get(key.name()) {
        None => Ok(None),
        Some(Json::Null) => Ok(None),
        Some(v) => match count_value(v) {
            Ok(n) => Ok(Some(n)),
            Err(fault) => Err(DecodeError { key, fault }),
        },
    }
}

fn is_record(value: &Json) -> (b: bool)
    ensures
        b == (value@ is Record),
{
    match value {
        Json::Record(_) => true,
        _ => false,
    }
}

/// Decodes one item of the results.
pub fn decode_item(value: &Json) -> (r: Result<Item, DecodeError>)
    ensures
        match r {
            Ok(item) => item_of(value@) == Ok::<ItemView, DecodeError>(item@),
            Err(e) => item_of(value@) == Err::<ItemView, DecodeError>(e),
        },
{
    if !is_record(value) {
        return Err(DecodeError { key: Key::Results, fault: Fault::WrongType });
    }
    let channel = text_member(value, Key::Channel)?;
    let topic = text_member(value, Key::Topic)?;
    let title = text_member(value, Key::Title)?;
    let description = optional_text_member(value, Key::Description)?;
    let timestamp = timestamp_member(value, Key::Timestamp)?;
    let duration = duration_member(value, Key::Duration)?;
    let size = optional_count_member(value, Key::Size)?;
    let url_website = text_member(value, Key::UrlWebsite)?;
    let url_subtitle = optional_text_member(value, Key::UrlSubtitle)?;
    let url_video = text_member(value, Key::UrlVideo)?;
    let url_video_low = optional_text_member(value, Key::UrlVideoLow)?;
    let url_video_hd = optional_text_member(value, Key::UrlVideoHd)?;
    let filmliste_timestamp = timestamp_member(value, Key::FilmlisteTimestamp)?;
    let id = text_member(value, Key::Id)?;
    Ok(
        Item {
            channel,
            topic,
            title,
            description,
            timestamp,
            duration,
            size,
            url_website,
            url_subtitle,
            url_video,
            url_video_low,
            url_video_hd,
            filmliste_timestamp,
            id,
        },
    )
}

/// Decodes what the server says of a search.
pub fn decode_query_info(value: &Json) -> (r: Result<QueryInfo, DecodeError>)
    ensures
        match r {
            Ok(info) => info_of(value@) == Ok::<QueryInfoView, DecodeError>(info@),
            Err(e) => info_of(value@) == Err::<QueryInfoView, DecodeError>(e),
        },
{
    if !is_record(value) {
        return Err(DecodeError { key: Key::QueryInfo, fault: Fault::WrongType });
    }
    let filmliste_timestamp = timestamp_member(value, Key::FilmlisteTimestamp)?;
    let result_count = count_member(value, Key::ResultCount)?;
    let search_engine_time = seconds_member(value, Key::SearchEngineTime)?;
    let total_results = total_member(value, Key::TotalResults)?;
    Ok(QueryInfo { filmliste_timestamp, result_count, search_engine_time, total_results })
}

fn decode_items(list: &Vec<Json>) -> (r: Result<Vec<Item>, DecodeError>)
    ensures
        match r {
            Ok(items) => items_of(items_view(list@)) == Ok::<Seq<ItemView>, DecodeError>(
                item_views(items@),
            ),
            Err(e) => items_of(items_view(list@)) == Err::<Seq<ItemView>, DecodeError>(e),
        },
{
    let ghost all = items_view(list@);
    let mut items: Vec<Item> = Vec::new();
    let mut i: usize = 0;
    proof {
        assert(item_views(items@) =~= Seq::empty());
    }
    while i < list.len()
        invariant
            i <= list.len(),
            all == items_view(list@),
            items_of(all.take(i as int)) == Ok::<Seq<ItemView>, DecodeError>(item_views(items@)),
        decreases list.len() - i,
    {
        proof {
            assert(all.take(i + 1).drop_last() =~= all.take(i as int));
            assert(all.take(i + 1).last() == list@[i as int]@);
        }
        match decode_item(&list[i]) {
            Ok(item) => {
                let ghost before = item_views(items@);
                items.push(item);
                proof {
                    assert(item_views(items@) =~= before.push(item@));
                }
            },
            Err(e) => {
                proof {
                    lemma_items_error_persists(all, i + 1, e);
                }
                return Err(e);
            },
        }
        i += 1;
    }
    proof {
        assert(all.take(i as int) =~= all);
    }
    Ok(items)
}

/// Decodes the payload of a response.
pub fn decode_query_result(value: &Json) -> (r: Result<QueryResult, DecodeError>)
    ensures
        match r {
            Ok(result) => query_result_of(value@) == Ok::<QueryResultView, DecodeError>(result@),
            Err(e) => query_result_of(value@) == Err::<QueryResultView, DecodeError>(e),
        },
{
    if !is_record(value) {
        return Err(DecodeError { key: Key::Payload, fault: Fault::WrongType });
    }
    let query_info = match value.get(Key::QueryInfo.name()) {
        None => {
            return Err(DecodeError { key: Key::QueryInfo, fault: Fault::Missing });
        },
        Some(info) => decode_query_info(info)?,
    };
    let results = match value.get(Key::Results.name()) {
        None => {
            return Err(DecodeError { key: Key::Results, fault: Fault::Missing });
        },
        Some(Json::List(list)) => {
            proof {
                lemma_list_view(*list);
            }
            decode_items(list)?
        },
        Some(_) => {
            return Err(DecodeError { key: Key::Results, fault: Fault::WrongType });
        },
    };
    Ok(QueryResult { query_info, results })
}

fn decode_messages(list: &Vec<Json>) -> (r: Result<ApiError, Fault>)
    ensures
        match r {
            Ok(e) => messages_of(items_view(list@)) == Ok::<Seq<Seq<char>>, Fault>(e@),
            Err(fault) => messages_of(items_view(list@)) == Err::<Seq<Seq<char>>, Fault>(fault),
        },
{
    let ghost all = items_view(list@);
    let mut messages: Vec<String> = Vec::new();
    let mut i: usize = 0;
    while i < list.len()
        invariant
            i <= list.len(),
            all == items_view(list@),
            messages@.len() == i,
            forall|k: int| 0 <= k < i ==> all[k] == JsonView::Text((#[trigger] messages@[k])@),
        decreases list.len() - i,
    {
        match &list[i] {
            Json::Text(s) => {
                messages.push(s.clone());
            },
            _ => {
                assert(!(all[i as int] is Text));
                return Err(Fault::WrongType);
            },
        }
        i += 1;
    }
    proof {
        assert forall|k: int| 0 <= k < all.len() implies (#[trigger] all[k]) is Text by {
            assert(all[k] == JsonView::Text(messages@[k]@));
        }
        assert(texts(messages@) =~= Seq::new(all.len(), |i: int| all[i]->Text_0));
    }
    Ok(ApiError(messages))
}

/// Decodes the envelope of a response.
pub fn decode_envelope(value: &Json) -> (r: Result<ApiResult<QueryResult>, DecodeError>)
    ensures
        match r {
            Ok(envelope) => envelope_of(value@) == Ok::<EnvelopeView, DecodeError>(
                envelope_view(envelope),
            ),
            Err(e) => envelope_of(value@) == Err::<EnvelopeView, DecodeError>(e),
        },
{
    if !is_record(value) {
        return Err(DecodeError { key: Key::Response, fault: Fault::WrongType });
    }
    let err = match value.get(Key::Errors.name()) {
        None => None,
        Some(Json::Null) => None,
        Some(Json::List(list)) => {
            proof {
                lemma_list_view(*list);
            }
            match decode_messages(list) {
                Ok(e) => Some(e),
                Err(fault) => {
                    return Err(DecodeError { key: Key::Errors, fault });
                },
            }
        },
        Some(_) => {
            return Err(DecodeError { key: Key::Errors, fault: Fault::WrongType });
        },
    };
    let result = match value.get(Key::Payload.name()) {
        None => None,
        Some(Json::Null) => None,
        Some(payload) => Some(decode_query_result(payload)?),
    };
    Ok(ApiResult { err, result })
}

/// Decodes a response: the results of the search, or the error that the
/// response stands for.
pub fn decode_response(body: &Json) -> (r: Result<QueryResult, MediathekError>)
    ensures
        outcome_of(r) == response_of(body@),
{
    match decode_envelope(body) {
        Ok(envelope) => envelope.into_result(),
        Err(e) => Err(MediathekError::Decode(e)),
    }
}

/// What a request comes to once the HTTP client is done with it: the
/// decoded body of the response, or the error of the HTTP client where it
/// has failed.
pub fn receive(reply: Result<Json, reqwest::Error>) -> (r: Result<QueryResult, MediathekError>)
    ensures
        match reply {
            Ok(body) => outcome_of(r) == response_of(body@),
            Err(e) => r matches Err(MediathekError::Reqwest(cause)) && cause == e,
        },
{
    match reply {
        Ok(body) => decode_response(&body),
        Err(e) => Err(MediathekError::Reqwest(e)),
    }
}

} // verus!
