use mediathekviewweb::models::{Query, QueryField};
use mediathekviewweb::MediathekQuery;

#[test]
fn test_search_string() {
    assert_eq!(
        MediathekQuery::from_search_string("!ard", false),
        MediathekQuery {
            queries: vec![Query {
                fields: vec![QueryField::Channel],
                query: "ard".into()
            }],
            ..Default::default()
        }
    );
    assert_eq!(
        MediathekQuery::from_search_string("+gebärdensprache", false),
        MediathekQuery {
            queries: vec![Query {
                fields: vec![QueryField::Title],
                query: "gebärdensprache".into()
            }],
            ..Default::default()
        }
    );
    assert_eq!(
        MediathekQuery::from_search_string("*norwegen", false),
        MediathekQuery {
            queries: vec![Query {
                fields: vec![QueryField::Description],
                query: "norwegen".into()
            }],
            ..Default::default()
        }
    );
    assert_eq!(
        MediathekQuery::from_search_string("!ard #wetter", false),
        MediathekQuery {
            queries: vec![
                Query {
                    fields: vec![QueryField::Channel],
                    query: "ard".into()
                },
                Query {
                    fields: vec![QueryField::Topic],
                    query: "wetter".into()
                }
            ],
            ..Default::default()
        }
    );
    assert_eq!(
        MediathekQuery::from_search_string(">60", false),
        MediathekQuery {
            duration_min: Some(60),
            ..Default::default()
        }
    );
    assert_eq!(
        MediathekQuery::from_search_string("*diane,kruger", false),
        MediathekQuery {
            queries: vec![Query {
                fields: vec![QueryField::Description],
                query: "diane kruger".into()
            }],
            ..Default::default()
        }
    );
    assert_eq!(
        MediathekQuery::from_search_string("!ard !ndr #sturm,der,liebe #rote,rosen", false),
        MediathekQuery {
            queries: vec![
                Query {
                    fields: vec![QueryField::Channel],
                    query: "ard".into()
                },
                Query {
                    fields: vec![QueryField::Channel],
                    query: "ndr".into()
                },
                Query {
                    fields: vec![QueryField::Topic],
                    query: "sturm der liebe".into()
                },
                Query {
                    fields: vec![QueryField::Topic],
                    query: "rote rosen".into()
                }
            ],
            ..Default::default()
        }
    );
    assert_eq!(
        MediathekQuery::from_search_string("!ard !ndr #sturm,der,liebe #rote,rosen", false),
        MediathekQuery {
            queries: vec![
                Query {
                    fields: vec![QueryField::Channel],
                    query: "ard".into()
                },
                Query {
                    fields: vec![QueryField::Channel],
                    query: "ndr".into()
                },
                Query {
                    fields: vec![QueryField::Topic],
                    query: "sturm der liebe".into()
                },
                Query {
                    fields: vec![QueryField::Topic],
                    query: "rote rosen".into()
                }
            ],
            ..Default::default()
        }
    );

    assert_eq!(
        MediathekQuery::from_search_string("test", false),
        MediathekQuery {
            queries: vec![Query {
                fields: vec![QueryField::Topic, QueryField::Title],
                query: "test".into()
            },],
            ..Default::default()
        }
    );

    assert_eq!(
        MediathekQuery::from_search_string("test", true),
        MediathekQuery {
            queries: vec![Query {
                fields: vec![
                    QueryField::Channel,
                    QueryField::Topic,
                    QueryField::Title,
                    QueryField::Description
                ],
                query: "test".into()
            },],
            ..Default::default()
        }
    );
}

fn clause(fields: Vec<QueryField>, text: &str) -> Query {
    Query {
        fields,
        query: text.into(),
    }
}

#[test]
fn channel_prefix_gives_one_channel_clause() {
    let query = MediathekQuery::from_search_string("!ard", false);
    assert_eq!(query.queries, vec![clause(vec![QueryField::Channel], "ard")]);
    assert_eq!(query.duration_min, None);
    assert_eq!(query.duration_max, None);
}

#[test]
fn commas_become_spaces_behind_a_prefix() {
    let query = MediathekQuery::from_search_string("*diane,kruger", false);
    assert_eq!(
        query.queries,
        vec![clause(vec![QueryField::Description], "diane kruger")]
    );
    assert_eq!(query.duration_min, None);
    assert_eq!(query.duration_max, None);
}

#[test]
fn greater_than_sets_the_minimum_duration() {
    let query = MediathekQuery::from_search_string(">60", false);
    assert_eq!(query.duration_min, Some(60));
    assert_eq!(query.duration_max, None);
    assert!(query.queries.is_empty());
}

#[test]
fn less_than_sets_the_maximum_duration() {
    let query = MediathekQuery::from_search_string("<1800", true);
    assert_eq!(query.duration_max, Some(1800));
    assert_eq!(query.duration_min, None);
    assert!(query.queries.is_empty());
}

#[test]
fn plain_text_is_searched_in_topic_and_title() {
    let query = MediathekQuery::from_search_string("test", false);
    assert_eq!(
        query.queries,
        vec![clause(vec![QueryField::Topic, QueryField::Title], "test")]
    );
}

#[test]
fn plain_text_is_searched_everywhere_on_demand() {
    let query = MediathekQuery::from_search_string("test", true);
    assert_eq!(
        query.queries,
        vec![clause(
            vec![
                QueryField::Channel,
                QueryField::Topic,
                QueryField::Title,
                QueryField::Description
            ],
            "test"
        )]
    );
}

#[test]
fn empty_search_string_is_the_empty_query() {
    assert_eq!(MediathekQuery::from_search_string("", false), MediathekQuery::default());
    assert_eq!(MediathekQuery::from_search_string("", true), MediathekQuery::default());
    assert_eq!(MediathekQuery::from_search_string(" \t\n ", true), MediathekQuery::default());
}

#[test]
fn default_query_has_nothing_set() {
    let query = MediathekQuery::default();
    assert!(query.queries.is_empty());
    assert_eq!(query.duration_min, None);
    assert_eq!(query.duration_max, None);
    assert_eq!(query.future, None);
    assert_eq!(query.sort_by, None);
    assert_eq!(query.sort_order, None);
    assert_eq!(query.size, None);
    assert_eq!(query.offset, None);
}

#[test]
fn each_plain_token_is_a_clause_of_its_own() {
    let query = MediathekQuery::from_search_string("sturm der,liebe", false);
    assert_eq!(
        query.queries,
        vec![
            clause(vec![QueryField::Topic, QueryField::Title], "sturm"),
            clause(vec![QueryField::Topic, QueryField::Title], "der,liebe"),
        ]
    );
}

#[test]
fn tokens_are_cut_at_any_white_space() {
    let query = MediathekQuery::from_search_string("  !ard\t#wetter\u{a0}+heute\u{3000}*regen\n", false);
    assert_eq!(
        query.queries,
        vec![
            clause(vec![QueryField::Channel], "ard"),
            clause(vec![QueryField::Topic], "wetter"),
            clause(vec![QueryField::Title], "heute"),
            clause(vec![QueryField::Description], "regen"),
        ]
    );
}

#[test]
fn a_duration_that_is_no_number_is_plain_text() {
    let query = MediathekQuery::from_search_string(">abc <", false);
    assert_eq!(query.duration_min, None);
    assert_eq!(query.duration_max, None);
    assert_eq!(
        query.queries,
        vec![
            clause(vec![QueryField::Topic, QueryField::Title], ">abc"),
            clause(vec![QueryField::Topic, QueryField::Title], "<"),
        ]
    );
}

#[test]
fn a_duration_beyond_sixty_four_bits_is_plain_text() {
    let query = MediathekQuery::from_search_string(">18446744073709551616 <18446744073709551615", true);
    assert_eq!(query.duration_min, None);
    assert_eq!(query.duration_max, Some(u64::MAX));
    assert_eq!(query.queries.len(), 1);
    assert_eq!(query.queries[0].query, ">18446744073709551616");
    assert_eq!(query.queries[0].fields.len(), 4);
}

#[test]
fn a_duration_may_carry_a_plus_but_no_minus() {
    let query = MediathekQuery::from_search_string(">+60 <-5", false);
    assert_eq!(query.duration_min, Some(60));
    assert_eq!(query.duration_max, None);
    assert_eq!(
        query.queries,
        vec![clause(vec![QueryField::Topic, QueryField::Title], "<-5")]
    );
}

#[test]
fn a_later_bound_overwrites_an_earlier_one() {
    let query = MediathekQuery::from_search_string(">10 <100 >20 <200", false);
    assert_eq!(query.duration_min, Some(20));
    assert_eq!(query.duration_max, Some(200));
    assert!(query.queries.is_empty());
}

#[test]
fn a_prefix_alone_is_a_clause_with_empty_text() {
    let query = MediathekQuery::from_search_string("! #,", false);
    assert_eq!(
        query.queries,
        vec![
            clause(vec![QueryField::Channel], ""),
            clause(vec![QueryField::Topic], " "),
        ]
    );
}

#[test]
fn clauses_and_bounds_come_in_token_order() {
    let query = MediathekQuery::from_search_string("#tatort >600 krimi !ard <6000", false);
    assert_eq!(
        query.queries,
        vec![
            clause(vec![QueryField::Topic], "tatort"),
            clause(vec![QueryField::Topic, QueryField::Title], "krimi"),
            clause(vec![QueryField::Channel], "ard"),
        ]
    );
    assert_eq!(query.duration_min, Some(600));
    assert_eq!(query.duration_max, Some(6000));
}

#[test]
fn search_everywhere_changes_plain_clauses_only() {
    let input = "!zdf heute #nachrichten >60 journal *spät,abends <3600";
    let narrow = MediathekQuery::from_search_string(input, false);
    let wide = MediathekQuery::from_search_string(input, true);
    assert_eq!(narrow.duration_min, wide.duration_min);
    assert_eq!(narrow.duration_max, wide.duration_max);
    assert_eq!(narrow.queries.len(), wide.queries.len());
    let plain = [false, true, false, true, false];
    for i in 0..narrow.queries.len() {
        assert_eq!(narrow.queries[i].query, wide.queries[i].query);
        if plain[i] {
            assert_eq!(narrow.queries[i].fields, vec![QueryField::Topic, QueryField::Title]);
            assert_eq!(
                wide.queries[i].fields,
                vec![
                    QueryField::Channel,
                    QueryField::Topic,
                    QueryField::Title,
                    QueryField::Description
                ]
            );
        } else {
            assert_eq!(narrow.queries[i].fields, wide.queries[i].fields);
        }
    }
}

#[test]
fn every_clause_of_a_search_string_names_a_field() {
    let query = MediathekQuery::from_search_string("a !b #c +d *e >f <g", true);
    assert_eq!(query.queries.len(), 7);
    for clause in &query.queries {
        assert!(!clause.fields.is_empty());
    }
}

#[test]
fn all_fields_in_declaration_order() {
    assert_eq!(
        QueryField::all(),
        vec![
            QueryField::Topic,
            QueryField::Title,
            QueryField::Description,
            QueryField::Channel
        ]
    );
}

#[test]
fn plain_tokens_are_the_words_between_white_space() {
    let inputs = [
        "a b  c",
        " leading and trailing ",
        "tabs\tand\nnewlines\r\nand\u{b}\u{c}more",
        "no\u{85}break\u{a0}space\u{1680}ogham",
        "en\u{2000}quad\u{200a}hair\u{2028}line\u{2029}paragraph",
        "narrow\u{202f}medium\u{205f}ideographic\u{3000}end",
        "zero\u{200b}width is no white space",
        "gebärdensprache 日本語 \u{1F600}",
        "",
    ];
    for input in inputs {
        let expected: Vec<&str> = input.split_whitespace().collect();
        let query = MediathekQuery::from_search_string(input, false);
        let texts: Vec<&str> = query.queries.iter().map(|q| q.query.as_str()).collect();
        assert_eq!(texts, expected, "{:?}", input);
    }
}
