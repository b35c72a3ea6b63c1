//! The model of one request and its form on the wire.

use vstd::prelude::*;

use crate::json::{lemma_list_view, lemma_record_view, members_view, Json, JsonView, Member, MemberView};
use crate::models::{Query, QueryField, QueryView, SortField, SortOrder};

verus! {

/// One request: search conditions that must all hold, and the optional
/// settings. A setting that is `None` is left to the server.
#[derive(Debug, PartialEq)]
pub struct MediathekQuery {
    pub queries: Vec<Query>,
    /// In seconds.
    pub duration_min: Option<u64>,
    /// In seconds.
    pub duration_max: Option<u64>,
    pub future: Option<bool>,
    pub sort_by: Option<SortField>,
    pub sort_order: Option<SortOrder>,
    pub size: Option<usize>,
    pub offset: Option<usize>,
}

/// The mathematical value of a [`MediathekQuery`].
pub struct MediathekQueryView {
    pub queries: Seq<QueryView>,
    pub duration_min: Option<u64>,
    pub duration_max: Option<u64>,
    pub future: Option<bool>,
    pub sort_by: Option<SortField>,
    pub sort_order: Option<SortOrder>,
    pub size: Option<usize>,
    pub offset: Option<usize>,
}

/// The values of `queries`, one by one.
pub open spec fn query_views(queries: Seq<Query>) -> Seq<QueryView> {
    Seq::new(queries.len(), |i: int| queries[i]@)
}

impl View for MediathekQuery {
    type V = MediathekQueryView;

    open spec fn view(&self) -> MediathekQueryView {
        MediathekQueryView {
            queries: query_views(self.queries@),
            duration_min: self.duration_min,
            duration_max: self.duration_max,
            future: self.future,
            sort_by: self.sort_by,
            sort_order: self.sort_order,
            size: self.size,
            offset: self.offset,
        }
    }
}

impl MediathekQueryView {
    /// The request without conditions and with nothing set.
    pub open spec fn empty() -> MediathekQueryView {
        MediathekQueryView {
            queries: Seq::empty(),
            duration_min: None,
            duration_max: None,
            future: None,
            sort_by: None,
            sort_order: None,
            size: None,
            offset: None,
        }
    }

    /// Every condition names one field at least.
    pub open spec fn well_formed(self) -> bool {
        forall|i: int| 0 <= i < self.queries.len() ==> (#[trigger] self.queries[i]).fields.len() > 0
    }

    /// The request with one more condition, after those it has.
    pub open spec fn with_query(self, fields: Seq<QueryField>, text: Seq<char>) -> MediathekQueryView {
        MediathekQueryView { queries: self.queries.push(QueryView { fields, query: text }), ..self }
    }

    pub open spec fn with_duration_min(self, secs: u64) -> MediathekQueryView {
        MediathekQueryView { duration_min: Some(secs), ..self }
    }

    pub open spec fn with_duration_max(self, secs: u64) -> MediathekQueryView {
        MediathekQueryView { duration_max: Some(secs), ..self }
    }

    pub open spec fn with_future(self, future: bool) -> MediathekQueryView {
        MediathekQueryView { future: Some(future), ..self }
    }

    pub open spec fn with_sort_by(self, field: SortField) -> MediathekQueryView {
        MediathekQueryView { sort_by: Some(field), ..self }
    }

    pub open spec fn with_sort_order(self, order: SortOrder) -> MediathekQueryView {
        MediathekQueryView { sort_order: Some(order), ..self }
    }

    pub open spec fn with_size(self, size: usize) -> MediathekQueryView {
        MediathekQueryView { size: Some(size), ..self }
    }

    pub open spec fn with_offset(self, offset: usize) -> MediathekQueryView {
        MediathekQueryView { offset: Some(offset), ..self }
    }
}

/// A condition on the wire: the names of its fields under `fields`, its text
/// under `query`.
pub open spec fn clause_json(clause: QueryView) -> JsonView {
    JsonView::Record(
        seq![
            MemberView {
                key: "fields"@,
                value: JsonView::List(
                    Seq::new(clause.fields.len(), |i: int| JsonView::Text(clause.fields[i].wire_name())),
                ),
            },
            MemberView { key: "query"@, value: JsonView::Text(clause.query) },
        ],
    )
}

/// The member `key` with `value`, or no member where there is no value.
pub open spec fn optional_member(key: Seq<char>, value: Option<JsonView>) -> Seq<MemberView> {
    match value {
        Some(value) => seq![MemberView { key, value }],
        None => Seq::empty(),
    }
}

pub open spec fn optional_integer(n: Option<int>) -> Option<JsonView> {
    match n {
        Some(n) => Some(JsonView::Integer(n)),
        None => None,
    }
}

pub open spec fn optional_name(name: Option<Seq<char>>) -> Option<JsonView> {
    match name {
        Some(name) => Some(JsonView::Text(name)),
        None => None,
    }
}

pub open spec fn unsigned_setting(n: Option<u64>) -> Option<int> {
    match n {
        Some(n) => Some(n as int),
        None => None,
    }
}

pub open spec fn count_setting(n: Option<usize>) -> Option<int> {
    match n {
        Some(n) => Some(n as int),
        None => None,
    }
}

/// The members of a request on the wire: `queries` always, and each setting
/// that is set, under the server's name for it. A setting that is not set has
/// no member at all.
pub open spec fn payload_members(q: MediathekQueryView) -> Seq<MemberView> {
    seq![
        MemberView {
            key: "queries"@,
            value: JsonView::List(Seq::new(q.queries.len(), |i: int| clause_json(q.queries[i]))),
        },
    ] + optional_member("duration_min"@, optional_integer(unsigned_setting(q.duration_min)))
        + optional_member("duration_max"@, optional_integer(unsigned_setting(q.duration_max)))
        + optional_member(
        "future"@,
        match q.future {
            Some(b) => Some(JsonView::Bool(b)),
            None => None,
        },
    ) + optional_member(
        "sortBy"@,
        optional_name(
            match q.sort_by {
                Some(f) => Some(f.wire_name()),
                None => None,
            },
        ),
    ) + optional_member(
        "sortOrder"@,
        optional_name(
            match q.sort_order {
                Some(o) => Some(o.wire_name()),
                None => None,
            },
        ),
    ) + optional_member("size"@, optional_integer(count_setting(q.size))) + optional_member(
        "offset"@,
        optional_integer(count_setting(q.offset)),
    )
}

/// A request on the wire.
pub open spec fn payload_of(q: MediathekQueryView) -> JsonView {
    JsonView::Record(payload_members(q))
}

impl Default for MediathekQuery {
    fn default() -> (query: MediathekQuery)
        ensures
            query@ == MediathekQueryView::empty(),
    {
        let query = MediathekQuery {
            queries: Vec::new(),
            duration_min: None,
            duration_max: None,
            future: None,
            sort_by: None,
            sort_order: None,
            size: None,
            offset: None,
        };
        assert(query_views(query.queries@) =~= Seq::empty());
        query
    }
}

/// Appends the member `key` where there is a value for it.
fn push_optional(members: &mut Vec<Member>, key: &str, value: Option<Json>)
    ensures
        members_view(final(members)@) == members_view(old(members)@) + optional_member(
            key@,
            match value {
                Some(v) => Some(v@),
                None => None,
            },
        ),
{
    match value {
        Some(value) => {
            let ghost before = members_view(members@);
            let ghost added = MemberView { key: key@, value: value@ };
            members.push(Member { key: key.to_owned(), value });
            assert(members_view(members@) =~= before + seq![added]);
        },
        None => {
            assert(members_view(members@) + Seq::empty() =~= members_view(members@));
        },
    }
}

fn integer_json(n: Option<u64>) -> (j: Option<Json>)
    ensures
        match j {
            Some(v) => Some(v@),
            None => None,
        } == optional_integer(unsigned_setting(n)),
{
    match n {
        Some(n) => Some(Json::Integer(n as i128)),
        None => None,
    }
}

fn count_json(n: Option<usize>) -> (j: Option<Json>)
    ensures
        match j {
            Some(v) => Some(v@),
            None => None,
        } == optional_integer(count_setting(n)),
{
    match n {
        Some(n) => Some(Json::Integer(n as i128)),
        None => None,
    }
}

impl Query {
    /// The condition on the wire.
    pub fn payload(&self) -> (body: Json)
        ensures
            body@ == clause_json(self@),
    {
        let mut names: Vec<Json> = Vec::new();
        let mut i: usize = 0;
        while i < self.fields.len()
            invariant
                i <= self.fields.len(),
                names@.len() == i,
                forall|k: int| 0 <= k < i ==> (#[trigger] names@[k])@ == JsonView::Text(self.fields@[k].wire_name()),
            decreases self.fields.len() - i,
        {
            names.push(Json::text(self.fields[i].name()));
            i += 1;
        }
        let ghost name_views = Seq::new(
            self.fields@.len(),
            |i: int| JsonView::Text(self.fields@[i].wire_name()),
        );
        proof {
            lemma_list_view(names);
            assert(crate::json::items_view(names@) =~= name_views);
        }
        let mut members: Vec<Member> = Vec::new();
        members.push(Member { key: "fields".to_owned(), value: Json::List(names) });
        members.push(Member { key: "query".to_owned(), value: Json::Text(self.query.clone()) });
        proof {
            lemma_record_view(members);
            assert(members_view(members@) =~= seq![
                MemberView { key: "fields"@, value: JsonView::List(name_views) },
                MemberView { key: "query"@, value: JsonView::Text(self.query@) },
            ]);
        }
        Json::Record(members)
    }
}

impl MediathekQuery {
    /// The request on the wire.
    pub fn payload(&self) -> (body: Json)
        ensures
            body@ == payload_of(self@),
    {
        let mut clauses: Vec<Json> = Vec::new();
        let mut i: usize = 0;
        while i < self.queries.len()
            invariant
                i <= self.queries.len(),
                clauses@.len() == i,
                forall|k: int| 0 <= k < i ==> (#[trigger] clauses@[k])@ == clause_json(self.queries@[k]@),
            decreases self.queries.len() - i,
        {
            clauses.push(self.queries[i].payload());
            i += 1;
        }
        let ghost clause_views = Seq::new(self@.queries.len(), |i: int| clause_json(self@.queries[i]));
        proof {
            lemma_list_view(clauses);
            assert(crate::json::items_view(clauses@) =~= clause_views);
        }
        let mut members: Vec<Member> = Vec::new();
        members.push(Member { key: "queries".to_owned(), value: Json::List(clauses) });
        assert(members_view(members@) =~= seq![
            MemberView { key: "queries"@, value: JsonView::List(clause_views) },
        ]);
        push_optional(&mut members, "duration_min", integer_json(self.duration_min));
        push_optional(&mut members, "duration_max", integer_json(self.duration_max));
        push_optional(
            &mut members,
            "future",
            match self.future {
                Some(b) => Some(Json::Bool(b)),
                None => None,
            },
        );
        push_optional(
            &mut members,
            "sortBy",
            match self.sort_by {
                Some(f) => Some(Json::text(f.name())),
                None => None,
            },
        );
        push_optional(
            &mut members,
            "sortOrder",
            match self.sort_order {
                Some(o) => Some(Json::text(o.name())),
                None => None,
            },
        );
        push_optional(&mut members, "size", count_json(self.size));
        push_optional(&mut members, "offset", count_json(self.offset));
        proof {
            lemma_record_view(members);
        }
        Json::Record(members)
    }
}

} // verus!
