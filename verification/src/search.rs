//! The compact syntax in which a request can be written as one line of text.
//!
//! A search string is cut at white space into tokens. The first character of a
//! token says what it is: `!` a channel, `#` a topic, `+` a title, `*` a
//! description, `>` the minimum and `<` the maximum duration in seconds. Any
//! other token is plain text that is looked for in several fields at once.

use vstd::prelude::*;

use crate::models::{Query, QueryField};
use crate::query::{query_views, MediathekQuery, MediathekQueryView};
use crate::text::{chars_of, is_space, is_whitespace, parse_unsigned, text_of, unsigned_of};

verus! {

/// The length of the longest prefix of `s` that holds no white space.
pub open spec fn word_len(s: Seq<char>) -> nat
    decreases s.len(),
{
    if s.len() == 0 || is_space(s[0]) {
        0
    } else {
        1 + word_len(s.drop_first())
    }
}

/// The tokens of `s`: its longest runs of characters that are not white
/// space, from left to right.
pub open spec fn tokens(s: Seq<char>) -> Seq<Seq<char>>
    decreases s.len(),
    via tokens_terminates
{
    if s.len() == 0 {
        Seq::empty()
    } else if is_space(s[0]) {
        tokens(s.drop_first())
    } else {
        seq![s.take(word_len(s) as int)] + tokens(s.skip(word_len(s) as int))
    }
}

#[via_fn]
proof fn tokens_terminates(s: Seq<char>) {
    lemma_word_len_bounds(s);
}

/// A word is no longer than the text it starts, and not empty where the text
/// starts with something else than white space.
pub proof fn lemma_word_len_bounds(s: Seq<char>)
    ensures
        word_len(s) <= s.len(),
        s.len() > 0 && !is_space(s[0]) ==> word_len(s) >= 1,
    decreases s.len(),
{
    if s.len() > 0 && !is_space(s[0]) {
        lemma_word_len_bounds(s.drop_first());
    }
}

/// What one token contributes to a request.
pub enum Step {
    /// A condition: `text` is looked for in `fields`.
    Search { fields: Seq<QueryField>, text: Seq<char> },
    /// The minimum duration, in seconds.
    DurationMin(u64),
    /// The maximum duration, in seconds.
    DurationMax(u64),
}

/// The field that a token searches in when it starts with `c`.
pub open spec fn prefix_field(c: char) -> Option<QueryField> {
    if c == '!' {
        Some(QueryField::Channel)
    } else if c == '#' {
        Some(QueryField::Topic)
    } else if c == '+' {
        Some(QueryField::Title)
    } else if c == '*' {
        Some(QueryField::Description)
    } else {
        None
    }
}

/// `s` with a space in the place of each comma.
pub open spec fn commas_to_spaces(s: Seq<char>) -> Seq<char> {
    Seq::new(
        s.len(),
        |i: int|
            if s[i] == ',' {
                ' '
            } else {
                s[i]
            },
    )
}

/// The fields in which plain text is looked for.
pub open spec fn plain_fields(everywhere: bool) -> Seq<QueryField> {
    if everywhere {
        seq![QueryField::Channel, QueryField::Topic, QueryField::Title, QueryField::Description]
    } else {
        seq![QueryField::Topic, QueryField::Title]
    }
}

/// A token is plain text where nothing else can be made of it: it starts
/// with none of the four field prefixes, and is no duration.
pub open spec fn is_plain(token: Seq<char>) -> bool {
    ||| token.len() == 0
    ||| {
        &&& prefix_field(token[0]) is None
        &&& !((token[0] == '>' || token[0] == '<') && unsigned_of(token.skip(1)) is Some)
    }
}

/// What `token` contributes. The text of a condition with a prefix is what
/// follows the prefix, with a space for each comma; the text of plain text is
/// the token as it stands.
pub open spec fn step_of(token: Seq<char>, everywhere: bool) -> Step {
    if is_plain(token) {
        Step::Search { fields: plain_fields(everywhere), text: token }
    } else if prefix_field(token[0]) is Some {
        Step::Search {
            fields: seq![prefix_field(token[0])->0],
            text: commas_to_spaces(token.skip(1)),
        }
    } else if token[0] == '>' {
        Step::DurationMin(unsigned_of(token.skip(1))->0)
    } else {
        Step::DurationMax(unsigned_of(token.skip(1))->0)
    }
}

impl MediathekQueryView {
    /// The request after `step`: a condition is added after those that are
    /// there, a duration bound takes the place of an earlier one.
    pub open spec fn after(self, step: Step) -> MediathekQueryView {
        match step {
            Step::Search { fields, text } => self.with_query(fields, text),
            Step::DurationMin(secs) => self.with_duration_min(secs),
            Step::DurationMax(secs) => self.with_duration_max(secs),
        }
    }

    /// The request after each of `steps` in turn.
    pub open spec fn after_all(self, steps: Seq<Step>) -> MediathekQueryView
        decreases steps.len(),
    {
        if steps.len() == 0 {
            self
        } else {
            self.after_all(steps.drop_last()).after(steps.last())
        }
    }
}

/// What each of `tokens` contributes, in their order.
pub open spec fn steps_of(tokens: Seq<Seq<char>>, everywhere: bool) -> Seq<Step> {
    Seq::new(tokens.len(), |i: int| step_of(tokens[i], everywhere))
}

/// The request that the search string `s` stands for.
pub open spec fn parsed(s: Seq<char>, everywhere: bool) -> MediathekQueryView {
    MediathekQueryView::empty().after_all(steps_of(tokens(s), everywhere))
}

/// The text of a condition: `payload` with a space for each comma.
fn clause_text(payload: &[char]) -> (text: String)
    ensures
        text@ == commas_to_spaces(payload@),
{
    let mut text = String::new();
    let mut i: usize = 0;
    while i < payload.len()
        invariant
            i <= payload.len(),
            text@ == commas_to_spaces(payload@).take(i as int),
        decreases payload.len() - i,
    {
        let c = payload[i];
        text.push(if c == ',' { ' ' } else { c });
        assert(commas_to_spaces(payload@).take(i + 1) =~= commas_to_spaces(payload@).take(i as int).push(
            commas_to_spaces(payload@)[i as int],
        ));
        i += 1;
    }
    assert(commas_to_spaces(payload@).take(i as int) =~= commas_to_spaces(payload@));
    text
}

/// The field that a token searches in when it starts with `c`.
fn field_of_prefix(c: char) -> (field: Option<QueryField>)
    ensures
        field == prefix_field(c),
{
    if c == '!' {
        Some(QueryField::Channel)
    } else if c == '#' {
        Some(QueryField::Topic)
    } else if c == '+' {
        Some(QueryField::Title)
    } else if c == '*' {
        Some(QueryField::Description)
    } else {
        None
    }
}

impl MediathekQuery {
    /// Adds a condition after those that are there.
    fn push_query(&mut self, fields: Vec<QueryField>, text: String)
        ensures
            final(self)@ == old(self)@.with_query(fields@, text@),
    {
        let ghost before = query_views(self.queries@);
        let ghost added = (Query { fields, query: text })@;
        self.queries.push(Query { fields, query: text });
        assert(query_views(self.queries@) =~= before.push(added));
    }

    /// Takes in what one token contributes.
    fn take_token(&mut self, token: &[char], search_everywhere: bool)
        requires
            token@.len() > 0,
        ensures
            final(self)@ == old(self)@.after(step_of(token@, search_everywhere)),
    {
        let first = token[0];
        let rest = vstd::slice::slice_subrange(token, 1, token.len());
        assert(rest@ == token@.skip(1));
        match field_of_prefix(first) {
            Some(field) => {
                let mut fields: Vec<QueryField> = Vec::new();
                fields.push(field);
                assert(fields@ =~= seq![field]);
                self.push_query(fields, clause_text(rest));
                return;
            },
            None => {},
        }
        if first == '>' {
            match parse_unsigned(rest) {
                Some(secs) => {
                    self.duration_min = Some(secs);
                    return;
                },
                None => {},
            }
        } else if first == '<' {
            match parse_unsigned(rest) {
                Some(secs) => {
                    self.duration_max = Some(secs);
                    return;
                },
                None => {},
            }
        }
        let mut fields: Vec<QueryField> = Vec::new();
        if search_everywhere {
            fields.push(QueryField::Channel);
            fields.push(QueryField::Topic);
            fields.push(QueryField::Title);
            fields.push(QueryField::Description);
        } else {
            fields.push(QueryField::Topic);
            fields.push(QueryField::Title);
        }
        assert(fields@ =~= plain_fields(search_everywhere));
        self.push_query(fields, text_of(token));
    }

    /// Reads a request from a search string. With `search_everywhere`, plain
    /// text is looked for in the channel and the description too, otherwise
    /// in topic and title only.
    pub fn from_search_string(s: &str, search_everywhere: bool) -> (query: MediathekQuery)
        ensures
            query@ == parsed(s@, search_everywhere),
            query@.well_formed(),
    {
        let chars = chars_of(s);
        let mut query = MediathekQuery::default();
        let ghost mut done: Seq<Seq<char>> = Seq::empty();
        let mut i: usize = 0;
        proof {
            assert(chars@.skip(0) =~= chars@);
            assert(done + tokens(chars@) =~= tokens(chars@));
        }
        while i < chars.len()
            invariant
                i <= chars.len(),
                tokens(chars@) == done + tokens(chars@.skip(i as int)),
                query@ == MediathekQueryView::empty().after_all(steps_of(done, search_everywhere)),
            decreases chars.len() - i,
        {
            let ghost tail = chars@.skip(i as int);
            if is_whitespace(chars[i]) {
                proof {
                    assert(tail.drop_first() =~= chars@.skip(i + 1));
                }
                i += 1;
            } else {
                let start = i;
                let mut end = i;
                while end < chars.len() && !is_whitespace(chars[end])
                    invariant
                        start <= end <= chars.len(),
                        word_len(chars@.skip(start as int)) == (end - start) + word_len(
                            chars@.skip(end as int),
                        ),
                    decreases chars.len() - end,
                {
                    proof {
                        assert(chars@.skip(end as int).drop_first() =~= chars@.skip(end + 1));
                    }
                    end += 1;
                }
                let token = vstd::slice::slice_subrange(chars.as_slice(), start, end);
                proof {
                    assert(word_len(tail) == end - start);
                    assert(token@ =~= tail.take(word_len(tail) as int));
                    assert(tail.skip(word_len(tail) as int) =~= chars@.skip(end as int));
                    assert(done + (seq![token@] + tokens(chars@.skip(end as int))) =~= done.push(token@)
                        + tokens(chars@.skip(end as int)));
                    let steps = steps_of(done.push(token@), search_everywhere);
                    assert(steps.drop_last() =~= steps_of(done, search_everywhere));
                    assert(steps.last() == step_of(token@, search_everywhere));
                }
                query.take_token(token, search_everywhere);
                proof {
                    done = done.push(token@);
                }
                i = end;
            }
        }
        proof {
            assert(done + Seq::<Seq<char>>::empty() =~= done);
            crate::laws::law_parsed_is_well_formed(s@, search_everywhere);
        }
        query
    }
}

} // verus!
