use histstore::item::{Anything, HistoryItem, HistoryItemId};
use histstore::query::{
    CommandLineSearch, SearchDirection, SearchQuery, matches_query, str_contains_sub,
    str_is_prefix,
};
use histstore::sqlgen::{NamedParam, SqlValue, construct_query, escape_like};

#[test]
fn lowering_of_the_unconstrained_query() {
    let query = SearchQuery::everything(SearchDirection::Forward);
    let (sql, params) = construct_query(&query, "*");
    assert_eq!(sql, "select * from history where true order by id asc");
    assert!(params.is_empty());
}

#[test]
fn lowering_flips_comparisons_with_direction() {
    let mut fwd = SearchQuery::everything(SearchDirection::Forward);
    fwd.start_id = Some(HistoryItemId::new(1));
    fwd.end_id = Some(HistoryItemId::new(9));
    let (sql, _) = construct_query(&fwd, "*");
    assert_eq!(
        sql,
        "select * from history where id > :start_id and id <= :end_id order by id asc"
    );

    let mut bwd = SearchQuery::everything(SearchDirection::Backward);
    bwd.start_id = Some(HistoryItemId::new(9));
    bwd.end_id = Some(HistoryItemId::new(1));
    let (sql, _) = construct_query(&bwd, "*");
    assert_eq!(
        sql,
        "select * from history where id < :start_id and id >= :end_id order by id desc"
    );
}

#[test]
fn lowering_binds_every_filter_value() {
    let mut query = SearchQuery::everything(SearchDirection::Forward);
    query.start_time = Some(100);
    query.end_time = Some(900);
    query.limit = Some(5);
    query.filter.command_line = Some(CommandLineSearch::Prefix(String::from("ls")));
    query.filter.not_command_line = Some(String::from("cd"));
    query.filter.hostname = Some(String::from("h1"));
    query.filter.cwd_exact = Some(String::from("/tmp"));
    query.filter.cwd_prefix = Some(String::from("/t"));
    query.filter.exit_successful = Some(true);
    let (sql, params) = construct_query(&query, "*");
    assert_eq!(
        sql,
        "select * from history where start_timestamp > :start_time \
         and start_timestamp <= :end_time \
         and command_line like :command_line escape '\\' \
         and command_line != :not_cmd \
         and hostname = :hostname \
         and cwd = :cwd \
         and cwd like :cwd_like escape '\\' \
         and exit_status = 0 \
         order by id asc limit :limit"
    );
    let expected = vec![
        NamedParam { name: ":start_time", value: SqlValue::Int(100) },
        NamedParam { name: ":end_time", value: SqlValue::Int(900) },
        NamedParam { name: ":limit", value: SqlValue::Int(5) },
        NamedParam { name: ":command_line", value: SqlValue::Text(String::from("ls%")) },
        NamedParam { name: ":not_cmd", value: SqlValue::Text(String::from("cd")) },
        NamedParam { name: ":hostname", value: SqlValue::Text(String::from("h1")) },
        NamedParam { name: ":cwd", value: SqlValue::Text(String::from("/tmp")) },
        NamedParam { name: ":cwd_like", value: SqlValue::Text(String::from("/t%")) },
    ];
    assert_eq!(params, expected);
}

#[test]
fn exact_match_compares_for_equality_not_as_pattern() {
    let mut query = SearchQuery::everything(SearchDirection::Forward);
    query.filter.command_line = Some(CommandLineSearch::Exact(String::from("a%b")));
    let (sql, params) = construct_query(&query, "*");
    assert_eq!(
        sql,
        "select * from history where command_line = :command_line order by id asc"
    );
    assert_eq!(
        params,
        vec![NamedParam { name: ":command_line", value: SqlValue::Text(String::from("a%b")) }]
    );
}

#[test]
fn substring_pattern_is_escaped_between_wildcards() {
    let mut query = SearchQuery::everything(SearchDirection::Forward);
    query.filter.command_line = Some(CommandLineSearch::Substring(String::from("50%_x")));
    let (_, params) = construct_query(&query, "*");
    assert_eq!(
        params,
        vec![NamedParam {
            name: ":command_line",
            value: SqlValue::Text(String::from("%50\\%\\_x%")),
        }]
    );
}

#[test]
fn escape_like_neutralizes_metacharacters() {
    assert_eq!(escape_like("plain"), "plain");
    assert_eq!(escape_like("50%"), "50\\%");
    assert_eq!(escape_like("a_b"), "a\\_b");
    assert_eq!(escape_like("a\\b"), "a\\\\b");
    assert_eq!(escape_like("%_\\"), "\\%\\_\\\\");
    assert_eq!(escape_like(""), "");
}

#[test]
fn prefix_and_substring_helpers() {
    assert!(str_is_prefix("ls", "ls -la"));
    assert!(!str_is_prefix("ls", "als"));
    assert!(str_is_prefix("", "anything"));
    assert!(!str_is_prefix("long", "lo"));
    assert!(str_contains_sub("ls -la", "la"));
    assert!(str_contains_sub("la-something", "la"));
    assert!(!str_contains_sub("ls", "la"));
    assert!(str_contains_sub("abc", ""));
}

#[test]
fn matcher_decides_match_kinds() {
    let items: Vec<HistoryItem<Anything>> = ["ls", "ls -la", "als", "la-something"]
        .iter()
        .enumerate()
        .map(|(i, cmd)| {
            let mut it = HistoryItem::from_command_line(String::from(*cmd));
            it.id = Some(HistoryItemId::new(i as i64 + 1));
            it
        })
        .collect();

    let mut exact = SearchQuery::everything(SearchDirection::Forward);
    exact.filter.command_line = Some(CommandLineSearch::Exact(String::from("ls")));
    let hits: Vec<bool> = items.iter().map(|it| matches_query(&exact, it)).collect();
    assert_eq!(hits, vec![true, false, false, false]);

    let mut prefix = SearchQuery::everything(SearchDirection::Forward);
    prefix.filter.command_line = Some(CommandLineSearch::Prefix(String::from("ls")));
    let hits: Vec<bool> = items.iter().map(|it| matches_query(&prefix, it)).collect();
    assert_eq!(hits, vec![true, true, false, false]);

    let mut sub = SearchQuery::everything(SearchDirection::Forward);
    sub.filter.command_line = Some(CommandLineSearch::Substring(String::from("la")));
    let hits: Vec<bool> = items.iter().map(|it| matches_query(&sub, it)).collect();
    assert_eq!(hits, vec![false, true, false, true]);
}

#[test]
fn matcher_applies_directional_bounds() {
    let mut item = HistoryItem::<Anything>::from_command_line(String::from("ls"));
    item.id = Some(HistoryItemId::new(2));

    let mut fwd = SearchQuery::everything(SearchDirection::Forward);
    fwd.start_id = Some(HistoryItemId::new(2));
    assert!(!matches_query(&fwd, &item));
    fwd.start_id = Some(HistoryItemId::new(1));
    assert!(matches_query(&fwd, &item));

    let mut bwd = SearchQuery::everything(SearchDirection::Backward);
    bwd.start_id = Some(HistoryItemId::new(2));
    assert!(!matches_query(&bwd, &item));
    bwd.start_id = Some(HistoryItemId::new(3));
    assert!(matches_query(&bwd, &item));

    let mut end_fwd = SearchQuery::everything(SearchDirection::Forward);
    end_fwd.end_id = Some(HistoryItemId::new(2));
    assert!(matches_query(&end_fwd, &item));
    end_fwd.end_id = Some(HistoryItemId::new(1));
    assert!(!matches_query(&end_fwd, &item));
}

#[test]
fn identifier_wrappers_expose_their_raw_value() {
    assert_eq!(HistoryItemId::new(7).raw(), 7);
    assert_eq!(histstore::item::HistorySessionId::new(3).raw(), 3);
    assert_eq!(HistoryItemId::new(7), HistoryItemId::new(7));
    assert_ne!(HistoryItemId::new(7), HistoryItemId::new(8));
}
