//! What holds of the library as a whole.
//!
//! Each proof function here states one law over the specifications of the
//! functions that it is about.

use vstd::prelude::*;

use crate::decode::{
    collapsed, envelope_of, item_of, optional_text_at, response_of, EnvelopeView, Outcome,
};
use crate::error::{Fault, Key};
use crate::json::{member, JsonView, MemberView};
use crate::models::duration_millisecs;
use crate::models::optional_duration_secs;
use crate::models::timestamp;
use crate::models::{empty_as_none, optional_text_of};
use crate::query::{
    clause_json, count_setting, optional_integer, optional_member, optional_name, payload_members, payload_of,
    unsigned_setting, MediathekQueryView,
};
use crate::search::{
    is_plain, lemma_word_len_bounds, parsed, plain_fields, step_of, steps_of, tokens, word_len, Step,
};
use crate::text::{
    all_digits, decimal_value, digit_char, digit_of, digits_of, fraction_part, is_digit,
    lemma_digits_are_a_numeral, lemma_point_after_digits, nine_digits, point_at, seconds_of, signed_digits,
    signed_of, two_decimals, whole_part,
};
use crate::text::is_space;

verus! {

/// A token that is not plain text contributes the same whether or not plain
/// text is searched for everywhere.
pub proof fn law_prefixed_token_ignores_search_everywhere(token: Seq<char>)
    requires
        !is_plain(token),
    ensures
        step_of(token, true) == step_of(token, false),
{
}

/// A token that is plain text contributes one condition with the token as
/// its text; where it is looked for is all that searching everywhere changes.
pub proof fn law_plain_token_changes_fields_only(token: Seq<char>, everywhere: bool)
    requires
        is_plain(token),
    ensures
        step_of(token, everywhere) == (Step::Search { fields: plain_fields(everywhere), text: token }),
{
}

/// Two requests differ in nothing but the fields of conditions, which in the
/// one are those of plain text searched narrowly and in the other those of
/// plain text searched everywhere.
pub open spec fn differ_in_plain_fields_only(narrow: MediathekQueryView, wide: MediathekQueryView) -> bool {
    &&& narrow.duration_min == wide.duration_min
    &&& narrow.duration_max == wide.duration_max
    &&& narrow.future == wide.future
    &&& narrow.sort_by == wide.sort_by
    &&& narrow.sort_order == wide.sort_order
    &&& narrow.size == wide.size
    &&& narrow.offset == wide.offset
    &&& narrow.queries.len() == wide.queries.len()
    &&& forall|i: int|
        0 <= i < narrow.queries.len() ==> {
            &&& (#[trigger] narrow.queries[i]).query == wide.queries[i].query
            &&& {
                ||| narrow.queries[i].fields == wide.queries[i].fields
                ||| narrow.queries[i].fields == plain_fields(false) && wide.queries[i].fields
                    == plain_fields(true)
            }
        }
}

proof fn lemma_tokens_differ_in_plain_fields_only(words: Seq<Seq<char>>)
    ensures
        differ_in_plain_fields_only(
            MediathekQueryView::empty().after_all(steps_of(words, false)),
            MediathekQueryView::empty().after_all(steps_of(words, true)),
        ),
    decreases words.len(),
{
    if words.len() > 0 {
        let narrow = steps_of(words, false);
        let wide = steps_of(words, true);
        lemma_tokens_differ_in_plain_fields_only(words.drop_last());
        assert(narrow.drop_last() =~= steps_of(words.drop_last(), false));
        assert(wide.drop_last() =~= steps_of(words.drop_last(), true));
        assert(narrow.last() == step_of(words.last(), false));
        assert(wide.last() == step_of(words.last(), true));
    }
}

/// The requests that a search string stands for with and without searching
/// everywhere differ only in the fields in which its plain text is looked
/// for.
pub proof fn law_search_everywhere_changes_plain_fields_only(s: Seq<char>)
    ensures
        differ_in_plain_fields_only(parsed(s, false), parsed(s, true)),
{
    lemma_tokens_differ_in_plain_fields_only(tokens(s));
}

/// The empty search string stands for the request that asks for nothing.
pub proof fn law_empty_search_string(everywhere: bool)
    ensures
        parsed(Seq::empty(), everywhere) == MediathekQueryView::empty(),
{
    assert(steps_of(tokens(Seq::empty()), everywhere) =~= Seq::empty());
}

/// Each call of the builder is one step: a condition is added, a duration
/// bound is set.
pub proof fn law_builder_calls_are_steps(
    q: MediathekQueryView,
    fields: Seq<crate::models::QueryField>,
    text: Seq<char>,
    secs: u64,
)
    ensures
        q.with_query(fields, text) == q.after(Step::Search { fields, text }),
        q.with_duration_min(secs) == q.after(Step::DurationMin(secs)),
        q.with_duration_max(secs) == q.after(Step::DurationMax(secs)),
{
}

/// A request that is built by the calls `steps`, made in turn on a new
/// builder, and the search string `s` go over the wire as the same payload
/// wherever the calls are what the tokens of `s` contribute.
pub proof fn law_builder_and_search_string_agree(
    s: Seq<char>,
    everywhere: bool,
    steps: Seq<Step>,
    built: MediathekQueryView,
)
    requires
        steps == steps_of(tokens(s), everywhere),
        built == MediathekQueryView::empty().after_all(steps),
    ensures
        built == parsed(s, everywhere),
        payload_of(built) == payload_of(parsed(s, everywhere)),
{
}

/// A point in time is decoded to the same integer from a number and from a
/// string that holds the number in decimal; a string that holds no integer
/// is an error.
pub proof fn law_timestamp_number_or_string(s: Seq<char>)
    ensures
        match signed_of(s) {
            Some(n) => {
                &&& timestamp::decoded(JsonView::Text(s)) == Ok::<i64, Fault>(n)
                &&& timestamp::decoded(JsonView::Integer(n as int)) == Ok::<i64, Fault>(n)
            },
            None => timestamp::decoded(JsonView::Text(s)) == Err::<i64, Fault>(Fault::Malformed),
        },
{
}

/// The empty string is decoded to no text, any other string to itself, and
/// so the empty text is never decoded.
pub proof fn law_empty_string_is_absent(s: Seq<char>)
    ensures
        optional_text_of(JsonView::Text(s)) == Ok::<Option<Seq<char>>, Fault>(empty_as_none(s)),
        s.len() == 0 <==> empty_as_none(s) is None,
        empty_as_none(s) matches Some(text) ==> text == s && text.len() > 0,
{
}

/// No decoded item holds the empty text where it may hold no text.
pub proof fn law_item_holds_no_empty_text(v: JsonView)
    ensures
        item_of(v) matches Ok(item) ==> {
            &&& item.description != Some(Seq::<char>::empty())
            &&& item.url_subtitle != Some(Seq::<char>::empty())
            &&& item.url_video_low != Some(Seq::<char>::empty())
            &&& item.url_video_hd != Some(Seq::<char>::empty())
        },
{
    if item_of(v) is Ok {
        lemma_optional_text_not_empty(v, Key::Description);
        lemma_optional_text_not_empty(v, Key::UrlSubtitle);
        lemma_optional_text_not_empty(v, Key::UrlVideoLow);
        lemma_optional_text_not_empty(v, Key::UrlVideoHd);
    }
}

proof fn lemma_optional_text_not_empty(v: JsonView, key: Key)
    ensures
        optional_text_at(v, key) matches Ok(Some(text)) ==> text.len() > 0,
{
}

/// Messages of the server make the response an error that carries them,
/// whatever payload stands beside them.
pub proof fn law_messages_win(envelope: EnvelopeView, other: EnvelopeView)
    requires
        envelope.err is Some,
        other.err == envelope.err,
    ensures
        collapsed(envelope) == Outcome::Refused(envelope.err->0),
        collapsed(other) == collapsed(envelope),
{
}

/// An envelope without messages comes to its payload, and to the empty
/// response where it has none.
pub proof fn law_envelope_without_messages(envelope: EnvelopeView)
    requires
        envelope.err is None,
    ensures
        collapsed(envelope) == match envelope.result {
            Some(result) => Outcome::Results(result),
            None => Outcome::Empty,
        },
{
}

/// A response comes to one of four things: results, the server's messages,
/// nothing, or an error of decoding. The last it is exactly where the
/// envelope cannot be decoded.
pub proof fn law_response_outcomes(v: JsonView)
    ensures
        !(response_of(v) is Transport),
        response_of(v) is Undecodable <==> envelope_of(v) is Err,
{
}

/// A key is looked up in two lists of members, one after the other, by
/// looking it up in the first and, where it is not there, in the second.
pub proof fn lemma_member_of_concat(a: Seq<MemberView>, b: Seq<MemberView>, key: Seq<char>)
    ensures
        member(a + b, key) == if member(a, key) is Some {
            member(a, key)
        } else {
            member(b, key)
        },
    decreases a.len(),
{
    if a.len() == 0 {
        assert(a + b =~= b);
    } else {
        assert((a + b)[0] == a[0]);
        assert((a + b).drop_first() =~= a.drop_first() + b);
        lemma_member_of_concat(a.drop_first(), b, key);
    }
}

proof fn lemma_member_of_optional(key: Seq<char>, value: Option<JsonView>, wanted: Seq<char>)
    ensures
        member(optional_member(key, value), wanted) == if key == wanted {
            value
        } else {
            None
        },
{
    match value {
        Some(v) => {
            let one = optional_member(key, value);
            assert(one.drop_first() =~= Seq::<MemberView>::empty());
            assert(member(one.drop_first(), wanted) is None);
        },
        None => {},
    }
}

/// The value of the setting that goes over the wire under `key`, if there
/// is such a setting and it is set.
pub open spec fn setting_on_wire(q: MediathekQueryView, key: Seq<char>) -> Option<JsonView> {
    if key == "duration_min"@ {
        optional_integer(unsigned_setting(q.duration_min))
    } else if key == "duration_max"@ {
        optional_integer(unsigned_setting(q.duration_max))
    } else if key == "future"@ {
        match q.future {
            Some(b) => Some(JsonView::Bool(b)),
            None => None,
        }
    } else if key == "sortBy"@ {
        match q.sort_by {
            Some(f) => Some(JsonView::Text(f.wire_name())),
            None => None,
        }
    } else if key == "sortOrder"@ {
        match q.sort_order {
            Some(o) => Some(JsonView::Text(o.wire_name())),
            None => None,
        }
    } else if key == "size"@ {
        optional_integer(count_setting(q.size))
    } else if key == "offset"@ {
        optional_integer(count_setting(q.offset))
    } else {
        None
    }
}

/// The payload of a request holds the conditions under `queries`, each
/// setting that is set under its key, and nothing else: a setting that is
/// not set has no member, and no member holds `null` for it.
pub proof fn law_unset_settings_are_omitted(q: MediathekQueryView, key: Seq<char>)
    ensures
        payload_of(q).field(key) == if key == "queries"@ {
            Some(JsonView::List(Seq::new(q.queries.len(), |i: int| clause_json(q.queries[i]))))
        } else {
            setting_on_wire(q, key)
        },
        payload_of(q).field(key) != Some(JsonView::Null),
{
    reveal_strlit("queries");
    reveal_strlit("duration_min");
    reveal_strlit("duration_max");
    reveal_strlit("future");
    reveal_strlit("sortBy");
    reveal_strlit("sortOrder");
    reveal_strlit("size");
    reveal_strlit("offset");
    assert("duration_min"@[10] != "duration_max"@[10]);
    assert("future"@[0] != "sortBy"@[0]);
    assert("future"@[0] != "offset"@[0]);
    assert("sortBy"@[0] != "offset"@[0]);
    let m0 = seq![
        MemberView {
            key: "queries"@,
            value: JsonView::List(Seq::new(q.queries.len(), |i: int| clause_json(q.queries[i]))),
        },
    ];
    let o1 = optional_member("duration_min"@, optional_integer(unsigned_setting(q.duration_min)));
    let o2 = optional_member("duration_max"@, optional_integer(unsigned_setting(q.duration_max)));
    let o3 = optional_member(
        "future"@,
        match q.future {
            Some(b) => Some(JsonView::Bool(b)),
            None => None,
        },
    );
    let o4 = optional_member(
        "sortBy"@,
        optional_name(
            match q.sort_by {
                Some(f) => Some(f.wire_name()),
                None => None,
            },
        ),
    );
    let o5 = optional_member(
        "sortOrder"@,
        optional_name(
            match q.sort_order {
                Some(o) => Some(o.wire_name()),
                None => None,
            },
        ),
    );
    let o6 = optional_member("size"@, optional_integer(count_setting(q.size)));
    let o7 = optional_member("offset"@, optional_integer(count_setting(q.offset)));
    assert(payload_members(q) == m0 + o1 + o2 + o3 + o4 + o5 + o6 + o7);
    lemma_member_of_optional(
        "queries"@,
        Some(JsonView::List(Seq::new(q.queries.len(), |i: int| clause_json(q.queries[i])))),
        key,
    );
    assert(m0 =~= optional_member(
        "queries"@,
        Some(JsonView::List(Seq::new(q.queries.len(), |i: int| clause_json(q.queries[i])))),
    ));
    lemma_member_of_optional("duration_min"@, optional_integer(unsigned_setting(q.duration_min)), key);
    lemma_member_of_optional("duration_max"@, optional_integer(unsigned_setting(q.duration_max)), key);
    lemma_member_of_optional(
        "future"@,
        match q.future {
            Some(b) => Some(JsonView::Bool(b)),
            None => None,
        },
        key,
    );
    lemma_member_of_optional(
        "sortBy"@,
        optional_name(
            match q.sort_by {
                Some(f) => Some(f.wire_name()),
                None => None,
            },
        ),
        key,
    );
    lemma_member_of_optional(
        "sortOrder"@,
        optional_name(
            match q.sort_order {
                Some(o) => Some(o.wire_name()),
                None => None,
            },
        ),
        key,
    );
    lemma_member_of_optional("size"@, optional_integer(count_setting(q.size)), key);
    lemma_member_of_optional("offset"@, optional_integer(count_setting(q.offset)), key);
    lemma_member_of_concat(m0, o1, key);
    lemma_member_of_concat(m0 + o1, o2, key);
    lemma_member_of_concat(m0 + o1 + o2, o3, key);
    lemma_member_of_concat(m0 + o1 + o2 + o3, o4, key);
    lemma_member_of_concat(m0 + o1 + o2 + o3 + o4, o5, key);
    lemma_member_of_concat(m0 + o1 + o2 + o3 + o4 + o5, o6, key);
    lemma_member_of_concat(m0 + o1 + o2 + o3 + o4 + o5 + o6, o7, key);
    assert("queries"@.len() == 7);
    assert("duration_min"@.len() == 12);
    assert("duration_max"@.len() == 12);
    assert("future"@.len() == 6);
    assert("sortBy"@.len() == 6);
    assert("sortOrder"@.len() == 9);
    assert("size"@.len() == 4);
    assert("offset"@.len() == 6);
    if key == "queries"@ {
        assert(member(m0, key) is Some);
    } else if key == "duration_min"@ {
        assert(member(m0, key) is None);
        assert(member(m0 + o1, key) == member(o1, key));
    } else if key == "duration_max"@ {
        assert(member(m0 + o1, key) is None);
    } else if key == "future"@ {
        assert(member(m0 + o1 + o2, key) is None);
    } else if key == "sortBy"@ {
        assert(member(m0 + o1 + o2 + o3, key) is None);
    } else if key == "sortOrder"@ {
        assert(member(m0 + o1 + o2 + o3 + o4, key) is None);
    } else if key == "size"@ {
        assert(member(m0 + o1 + o2 + o3 + o4 + o5, key) is None);
    } else if key == "offset"@ {
        assert(member(m0 + o1 + o2 + o3 + o4 + o5 + o6, key) is None);
    } else {
        assert(member(m0 + o1 + o2 + o3 + o4 + o5 + o6 + o7, key) is None);
    }
}

/// Every point in time is decoded from its decimal numeral, as it is from
/// the number itself.
pub proof fn law_timestamp_round_trip(n: i64)
    ensures
        timestamp::decoded(JsonView::Text(signed_digits(n as int))) == Ok::<i64, Fault>(n),
        timestamp::decoded(JsonView::Integer(n as int)) == Ok::<i64, Fault>(n),
{
    let s = signed_digits(n as int);
    if n < 0 {
        let d = digits_of((-n) as nat);
        lemma_digits_are_a_numeral((-n) as nat);
        assert(s[0] == '-');
        assert(s.skip(1) =~= d);
    } else {
        lemma_digits_are_a_numeral(n as nat);
        assert(is_digit(s[0]));
    }
}

/// A span of whole hundredths of a second is decoded from what it is written as.
pub proof fn law_search_engine_time_round_trip(hundredths: nat)
    requires
        hundredths / 100 <= u64::MAX,
    ensures
        duration_millisecs::decoded(JsonView::Text(two_decimals(hundredths))) == Ok::<nat, Fault>(
            hundredths * 10_000_000,
        ),
{
    let whole = digits_of(hundredths / 100);
    let a = digit_char(hundredths / 10 % 10);
    let b = digit_char(hundredths % 10);
    let rest = seq!['.', a, b];
    let s = two_decimals(hundredths);
    lemma_digits_are_a_numeral(hundredths / 100);
    lemma_point_after_digits(whole, rest);
    assert(point_at(rest) == 0);
    assert(point_at(s) == whole.len());
    assert(whole_part(s) =~= whole);
    assert(fraction_part(s) =~= seq![a, b]);
    let fraction = fraction_part(s);
    assert(is_digit(a) && is_digit(b));
    assert(digit_of(a) == hundredths / 10 % 10);
    assert(digit_of(b) == hundredths % 10);
    let nine = nine_digits(fraction);
    assert(nine =~= seq![a, b, '0', '0', '0', '0', '0', '0', '0']);
    assert(decimal_value(nine) == (10 * digit_of(a) + digit_of(b)) * 10_000_000) by {
        let n1 = nine.drop_last();
        let n2 = n1.drop_last();
        let n3 = n2.drop_last();
        let n4 = n3.drop_last();
        let n5 = n4.drop_last();
        let n6 = n5.drop_last();
        let n7 = n6.drop_last();
        let n8 = n7.drop_last();
        let n9 = n8.drop_last();
        assert(n9.len() == 0);
        assert(decimal_value(n9) == 0);
        assert(n8.last() == a);
        assert(n7.last() == b);
        assert(decimal_value(n8) == digit_of(a));
        assert(decimal_value(n7) == 10 * digit_of(a) + digit_of(b));
        assert(decimal_value(n6) == 10 * decimal_value(n7));
        assert(decimal_value(n5) == 10 * decimal_value(n6));
        assert(decimal_value(n4) == 10 * decimal_value(n5));
        assert(decimal_value(n3) == 10 * decimal_value(n4));
        assert(decimal_value(n2) == 10 * decimal_value(n3));
        assert(decimal_value(n1) == 10 * decimal_value(n2));
        assert(decimal_value(nine) == 10 * decimal_value(n1));
    }
    assert(all_digits(fraction));
    assert(seconds_of(s) == Some((hundredths / 100) * 1_000_000_000 + (10 * digit_of(a) + digit_of(b)) * 10_000_000));
}

/// A length that is known is decoded from what it is written as, to its
/// whole seconds.
pub proof fn law_known_duration_round_trip(nanos: nat)
    requires
        nanos / 1_000_000_000 <= u64::MAX,
    ensures
        optional_duration_secs::decoded(optional_duration_secs::encoded(Some(nanos))) == Ok::<
            Option<nat>,
            Fault,
        >(Some((nanos / 1_000_000_000) * 1_000_000_000)),
{
}

/// A text without white space that is not empty.
pub open spec fn is_word(token: Seq<char>) -> bool {
    &&& token.len() > 0
    &&& forall|j: int| 0 <= j < token.len() ==> !is_space(#[trigger] token[j])
}

proof fn lemma_word_has_no_space(s: Seq<char>)
    ensures
        forall|j: int| 0 <= j < word_len(s) ==> !is_space(#[trigger] s[j]),
    decreases s.len(),
{
    if s.len() > 0 && !is_space(s[0]) {
        lemma_word_has_no_space(s.drop_first());
        lemma_word_len_bounds(s);
        assert forall|j: int| 0 <= j < word_len(s) implies !is_space(#[trigger] s[j]) by {
            if j > 0 {
                assert(s[j] == s.drop_first()[j - 1]);
            }
        }
    }
}

/// Every token of a search string is a word: it is not empty, and holds no
/// white space.
pub proof fn law_tokens_are_words(s: Seq<char>)
    ensures
        forall|i: int| 0 <= i < tokens(s).len() ==> is_word(#[trigger] tokens(s)[i]),
    decreases s.len(),
{
    if s.len() == 0 {
        assert(tokens(s).len() == 0);
    } else if is_space(s[0]) {
        law_tokens_are_words(s.drop_first());
        assert(tokens(s) == tokens(s.drop_first()));
    } else {
        let n = word_len(s) as int;
        lemma_word_len_bounds(s);
        lemma_word_has_no_space(s);
        law_tokens_are_words(s.skip(n));
        let first = s.take(n);
        let rest = tokens(s.skip(n));
        assert(is_word(first));
        assert(tokens(s) == seq![first] + rest);
        assert forall|i: int| 0 <= i < tokens(s).len() implies is_word(#[trigger] tokens(s)[i]) by {
            if i > 0 {
                assert(tokens(s)[i] == rest[i - 1]);
            } else {
                assert(tokens(s)[0] == first);
            }
        }
    }
}

proof fn lemma_steps_keep_well_formed(words: Seq<Seq<char>>, everywhere: bool)
    ensures
        MediathekQueryView::empty().after_all(steps_of(words, everywhere)).well_formed(),
    decreases words.len(),
{
    if words.len() > 0 {
        let steps = steps_of(words, everywhere);
        lemma_steps_keep_well_formed(words.drop_last(), everywhere);
        assert(steps.drop_last() =~= steps_of(words.drop_last(), everywhere));
        assert(steps.last() == step_of(words.last(), everywhere));
    }
}

/// Every condition of the request that a search string stands for names one
/// field at least.
pub proof fn law_parsed_is_well_formed(s: Seq<char>, everywhere: bool)
    ensures
        parsed(s, everywhere).well_formed(),
{
    lemma_steps_keep_well_formed(tokens(s), everywhere);
}

proof fn lemma_word_len_of_word(w: Seq<char>)
    requires
        forall|j: int| 0 <= j < w.len() ==> !is_space(#[trigger] w[j]),
    ensures
        word_len(w) == w.len(),
    decreases w.len(),
{
    if w.len() > 0 {
        assert(!is_space(w[0]));
        assert forall|j: int| 0 <= j < w.drop_first().len() implies !is_space(
            #[trigger] w.drop_first()[j],
        ) by {
            assert(w.drop_first()[j] == w[j + 1]);
        }
        lemma_word_len_of_word(w.drop_first());
    }
}

/// A word is the one token of itself.
pub proof fn law_word_is_one_token(w: Seq<char>)
    requires
        is_word(w),
    ensures
        tokens(w) == seq![w],
{
    lemma_word_len_of_word(w);
    assert(w.take(w.len() as int) =~= w);
    assert(w.skip(w.len() as int) =~= Seq::<char>::empty());
    assert(tokens(w.skip(w.len() as int)) =~= Seq::<Seq<char>>::empty());
    assert(tokens(w) =~= seq![w]);
}

proof fn lemma_word_len_before_space(a: Seq<char>, b: Seq<char>)
    requires
        b.len() > 0,
        is_space(b[0]),
    ensures
        word_len(a + b) == word_len(a),
    decreases a.len(),
{
    if a.len() == 0 {
        assert(a + b =~= b);
    } else if !is_space(a[0]) {
        assert((a + b)[0] == a[0]);
        assert((a + b).drop_first() =~= a.drop_first() + b);
        lemma_word_len_before_space(a.drop_first(), b);
    } else {
        assert((a + b)[0] == a[0]);
    }
}

/// The tokens of a text that goes on with white space are its own tokens,
/// then those of what follows.
pub proof fn law_tokens_before_white_space(a: Seq<char>, b: Seq<char>)
    requires
        b.len() > 0,
        is_space(b[0]),
    ensures
        tokens(a + b) == tokens(a) + tokens(b),
    decreases a.len(),
{
    if a.len() == 0 {
        assert(a + b =~= b);
        assert(tokens(a) + tokens(b) =~= tokens(b));
    } else if is_space(a[0]) {
        assert((a + b)[0] == a[0]);
        assert((a + b).drop_first() =~= a.drop_first() + b);
        law_tokens_before_white_space(a.drop_first(), b);
    } else {
        let n = word_len(a) as int;
        lemma_word_len_bounds(a);
        lemma_word_len_before_space(a, b);
        assert((a + b)[0] == a[0]);
        assert((a + b).take(n) =~= a.take(n));
        assert((a + b).skip(n) =~= a.skip(n) + b);
        law_tokens_before_white_space(a.skip(n), b);
        assert(tokens(a + b) == seq![a.take(n)] + tokens(a.skip(n) + b));
        assert(tokens(a) == seq![a.take(n)] + tokens(a.skip(n)));
        assert(seq![a.take(n)] + (tokens(a.skip(n)) + tokens(b)) =~= (seq![a.take(n)] + tokens(a.skip(n)))
            + tokens(b));
    }
}

/// A search string with white space and one more word behind it has the
/// tokens of the search string, and then the word.
pub proof fn law_tokens_of_one_more_word(s: Seq<char>, space: char, word: Seq<char>)
    requires
        is_space(space),
        is_word(word),
    ensures
        tokens(s + seq![space] + word) == tokens(s).push(word),
{
    let tail = seq![space] + word;
    assert(s + seq![space] + word =~= s + tail);
    law_tokens_before_white_space(s, tail);
    assert(tail[0] == space);
    assert(tail.drop_first() =~= word);
    assert(tokens(tail) == tokens(word));
    law_word_is_one_token(word);
    assert(tokens(s) + seq![word] =~= tokens(s).push(word));
}

/// To write one more word behind a search string is to go one step further
/// with the request: the request that the longer search string stands for is
/// the one of the shorter, after what the word contributes. So a call of
/// the builder and a word of the search string that contribute the same
/// lead from equal requests to equal requests, and to equal payloads.
pub proof fn law_one_more_word_is_one_more_step(
    s: Seq<char>,
    space: char,
    word: Seq<char>,
    everywhere: bool,
)
    requires
        is_space(space),
        is_word(word),
    ensures
        parsed(s + seq![space] + word, everywhere) == parsed(s, everywhere).after(
            step_of(word, everywhere),
        ),
        payload_of(parsed(s + seq![space] + word, everywhere)) == payload_of(
            parsed(s, everywhere).after(step_of(word, everywhere)),
        ),
{
    law_tokens_of_one_more_word(s, space, word);
    let longer = steps_of(tokens(s).push(word), everywhere);
    assert(longer.drop_last() =~= steps_of(tokens(s), everywhere));
    assert(longer.last() == step_of(word, everywhere));
}

} // verus!
