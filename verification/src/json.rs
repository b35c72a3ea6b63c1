//! A JSON document as a plain value.
//!
//! Requests are built as a [`Json`] value and responses are decoded from one.
//! Turning a value into text and text into a value is left to the caller.

use vstd::prelude::*;

verus! {

/// A JSON value.
#[derive(Debug, PartialEq)]
pub enum Json {
    Null,
    Bool(bool),
    /// A number without fraction or exponent.
    Integer(i128),
    /// Any other number. No member of the API holds one, so its value is not kept.
    Real,
    Text(String),
    List(Vec<Json>),
    /// An object: its members in the order in which they were written.
    Record(Vec<Member>),
}

/// One member of an object: its key and its value.
#[derive(Debug, PartialEq)]
pub struct Member {
    pub key: String,
    pub value: Json,
}

/// The mathematical value of a [`Json`].
pub enum JsonView {
    Null,
    Bool(bool),
    Integer(int),
    Real,
    Text(Seq<char>),
    List(Seq<JsonView>),
    Record(Seq<MemberView>),
}

/// One member of an object: its key and its value.
pub struct MemberView {
    pub key: Seq<char>,
    pub value: JsonView,
}

impl View for Json {
    type V = JsonView;

    open spec fn view(&self) -> JsonView
        decreases self,
    {
        match self {
            Json::Null => JsonView::Null,
            Json::Bool(b) => JsonView::Bool(*b),
            Json::Integer(n) => JsonView::Integer(*n as int),
            Json::Real => JsonView::Real,
            Json::Text(s) => JsonView::Text(s@),
            Json::List(items) => JsonView::List(
                Seq::new(
                    items@.len(),
                    |i: int|
                        if 0 <= i < items@.len() {
                            items@[i].view()
                        } else {
                            JsonView::Null
                        },
                ),
            ),
            Json::Record(members) => JsonView::Record(
                Seq::new(
                    members@.len(),
                    |i: int|
                        if 0 <= i < members@.len() {
                            MemberView { key: members@[i].key@, value: members@[i].value.view() }
                        } else {
                            MemberView { key: Seq::empty(), value: JsonView::Null }
                        },
                ),
            ),
        }
    }
}

/// The values of `items`, one by one.
pub open spec fn items_view(items: Seq<Json>) -> Seq<JsonView> {
    Seq::new(items.len(), |i: int| items[i]@)
}

/// The keys and values of `members`, one by one.
pub open spec fn members_view(members: Seq<Member>) -> Seq<MemberView> {
    Seq::new(members.len(), |i: int| members[i]@)
}

/// The value of the first of `members` whose key is `key`.
pub open spec fn member(members: Seq<MemberView>, key: Seq<char>) -> Option<JsonView>
    decreases members.len(),
{
    if members.len() == 0 {
        None
    } else if members[0].key == key {
        Some(members[0].value)
    } else {
        member(members.drop_first(), key)
    }
}

impl View for Member {
    type V = MemberView;

    open spec fn view(&self) -> MemberView {
        MemberView { key: self.key@, value: self.value@ }
    }
}

impl JsonView {
    /// The member `key` of a record: of an object that has the key twice, the
    /// first; `None` of an object without it, and of what is no object.
    pub open spec fn field(self, key: Seq<char>) -> Option<JsonView> {
        match self {
            JsonView::Record(members) => member(members, key),
            _ => None,
        }
    }
}

/// The view of a list is the list of its items' views.
pub proof fn lemma_list_view(items: Vec<Json>)
    ensures
        Json::List(items)@ == JsonView::List(items_view(items@)),
{
    assert(Json::List(items)@->List_0 =~= items_view(items@));
}

/// The view of a record is the list of its members' views.
pub proof fn lemma_record_view(members: Vec<Member>)
    ensures
        Json::Record(members)@ == JsonView::Record(members_view(members@)),
{
    assert(Json::Record(members)@->Record_0 =~= members_view(members@));
}

impl Json {
    /// The JSON string with the text of `s`.
    pub fn text(s: &str) -> (j: Json)
        ensures
            j@ == JsonView::Text(s@),
    {
        Json::Text(s.to_owned())
    }

    /// The member `key` of a record.
    pub fn get<'a>(&'a self, key: &str) -> (found: Option<&'a Json>)
        ensures
            match found {
                Some(value) => self@.field(key@) == Some(value@),
                None => self@.field(key@) is None,
            },
    {
        match self {
            Json::Record(members) => {
                proof {
                    lemma_record_view(*members);
                }
                let wanted = key.to_owned();
                let ghost all = members_view(members@);
                let mut i: usize = 0;
                proof {
                    assert(all.skip(0) =~= all);
                }
                while i < members.len()
                    invariant
                        i <= members.len(),
                        wanted@ == key@,
                        all == members_view(members@),
                        self@ == JsonView::Record(all),
                        member(all, key@) == member(all.skip(i as int), key@),
                    decreases members.len() - i,
                {
                    proof {
                        assert(all.skip(i as int)[0] == all[i as int]);
                        assert(all.skip(i as int).drop_first() =~= all.skip(i + 1));
                    }
                    if members[i].key == wanted {
                        proof {
                            assert(all[i as int] == members@[i as int]@);
                            assert(member(all.skip(i as int), key@) == Some(members@[i as int].value@));
                        }
                        return Some(&members[i].value);
                    }
                    i += 1;
                }
                None
            },
            _ => None,
        }
    }
}

} // verus!
