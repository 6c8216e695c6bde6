use histstore::item::{Anything, HistoryItem, HistoryItemId, HistorySessionId};
use histstore::query::{
    CommandLineSearch, SearchDirection, SearchFilter, SearchQuery, matches_query,
};
use histstore::store::{
    RawRow, SqliteBackedHistory, count_outcome, delete_outcome, load_outcome, save_outcome,
    search_outcome, session_outcome,
};
use histstore::StorageError;

fn bare_row(id: i64, cmd: &str) -> RawRow {
    RawRow {
        id,
        command_line: String::from(cmd),
        start_timestamp: None,
        session_id: None,
        hostname: None,
        cwd: None,
        duration_ms: None,
        exit_status: None,
        more_info: None,
    }
}

fn full_item(cmd: &str) -> HistoryItem<Anything> {
    HistoryItem {
        id: None,
        start_timestamp: Some(1_700_000_000_000),
        command_line: String::from(cmd),
        session_id: None,
        hostname: Some(String::from("h1")),
        cwd: Some(String::from("/home/u")),
        duration_ms: Some(250),
        exit_status: Some(0),
        more_info: Some(Anything),
    }
}

fn ids_of(items: &[HistoryItem<Anything>]) -> Vec<i64> {
    items.iter().map(|it| it.id.unwrap().raw()).collect()
}

fn cmds_of(items: &[HistoryItem<Anything>]) -> Vec<String> {
    items.iter().map(|it| it.command_line.clone()).collect()
}

#[test]
fn round_trip_preserves_every_field() {
    let mut store = SqliteBackedHistory::in_memory().unwrap();
    let item = full_item("cargo build");
    let saved = store.save(item.clone()).unwrap();
    let id = saved.id.unwrap();
    let loaded = store.load(id).unwrap();
    let mut expected = item;
    expected.id = Some(id);
    assert_eq!(loaded, expected);
}

#[test]
fn round_trip_of_bare_item() {
    let mut store = SqliteBackedHistory::in_memory().unwrap();
    let item = HistoryItem::from_command_line(String::from("ls"));
    let saved = store.save(item).unwrap();
    let loaded = store.load(saved.id.unwrap()).unwrap();
    assert_eq!(loaded.command_line, "ls");
    assert_eq!(loaded.start_timestamp, None);
    assert_eq!(loaded.session_id, None);
    assert_eq!(loaded.hostname, None);
    assert_eq!(loaded.cwd, None);
    assert_eq!(loaded.duration_ms, None);
    assert_eq!(loaded.exit_status, None);
    assert_eq!(loaded.more_info, None);
}

#[test]
fn saved_ids_strictly_increase() {
    let mut store = SqliteBackedHistory::in_memory().unwrap();
    let mut last: Option<i64> = None;
    for cmd in ["a", "b", "c", "d"] {
        let saved = store
            .save(HistoryItem::from_command_line(String::from(cmd)))
            .unwrap();
        let id = saved.id.unwrap().raw();
        if let Some(prev) = last {
            assert!(id > prev);
        }
        last = Some(id);
    }
}

#[test]
fn upsert_keeps_identity_and_replaces_fields() {
    let mut store = SqliteBackedHistory::in_memory().unwrap();
    let saved = store.save(full_item("one")).unwrap();
    let id = saved.id.unwrap();
    let mut changed = saved;
    changed.command_line = String::from("two");
    changed.exit_status = Some(7);
    let resaved = store.save(changed).unwrap();
    assert_eq!(resaved.id.unwrap().raw(), id.raw());
    let loaded = store.load(id).unwrap();
    assert_eq!(loaded.command_line, "two");
    assert_eq!(loaded.exit_status, Some(7));
    let total = store.count(SearchQuery::everything(SearchDirection::Forward)).unwrap();
    assert_eq!(total, 1);
}

#[test]
fn session_allocation_starts_at_one_and_grows() {
    let mut store = SqliteBackedHistory::in_memory().unwrap();
    let first = store.new_session_id().unwrap();
    assert_eq!(first.raw(), 1);
    let mut item = HistoryItem::from_command_line(String::from("ls"));
    item.session_id = Some(HistorySessionId::new(5));
    store.save(item).unwrap();
    let next = store.new_session_id().unwrap();
    assert!(next.raw() > 5);
}

#[test]
fn successive_session_allocations_strictly_increase() {
    let mut store = SqliteBackedHistory::in_memory().unwrap();
    let a = store.new_session_id().unwrap().raw();
    let b = store.new_session_id().unwrap().raw();
    let c = store.new_session_id().unwrap().raw();
    assert_eq!(a, 1);
    assert!(a < b);
    assert!(b < c);
}

#[test]
fn round_trip_of_extreme_duration() {
    let mut store = SqliteBackedHistory::in_memory().unwrap();
    let mut item = HistoryItem::from_command_line(String::from("sleep"));
    item.duration_ms = Some(u64::MAX);
    let saved = store.save(item).unwrap();
    let loaded = store.load(saved.id.unwrap()).unwrap();
    assert_eq!(loaded.duration_ms, Some(u64::MAX));
}

#[test]
fn search_orders_by_identity_per_direction() {
    let mut store = SqliteBackedHistory::in_memory().unwrap();
    for cmd in ["a", "b", "c"] {
        store
            .save(HistoryItem::from_command_line(String::from(cmd)))
            .unwrap();
    }
    let fwd = store.search(SearchQuery::everything(SearchDirection::Forward)).unwrap();
    assert_eq!(ids_of(&fwd), vec![1, 2, 3]);
    let bwd = store.search(SearchQuery::everything(SearchDirection::Backward)).unwrap();
    assert_eq!(ids_of(&bwd), vec![3, 2, 1]);
}

#[test]
fn combined_filters_require_both_conditions() {
    let mut store = SqliteBackedHistory::in_memory().unwrap();
    let cases = [
        ("m1", "h1", 0),
        ("m2", "h1", 1),
        ("m3", "h2", 0),
        ("m4", "h2", 1),
    ];
    for (cmd, host, status) in cases {
        let mut item = HistoryItem::from_command_line(String::from(cmd));
        item.hostname = Some(String::from(host));
        item.exit_status = Some(status);
        store.save(item).unwrap();
    }
    let mut query = SearchQuery::everything(SearchDirection::Forward);
    query.filter.hostname = Some(String::from("h1"));
    query.filter.exit_successful = Some(true);
    let found = store.search(query).unwrap();
    assert_eq!(cmds_of(&found), vec![String::from("m1")]);
}

#[test]
fn match_kind_semantics() {
    let mut store = SqliteBackedHistory::in_memory().unwrap();
    for cmd in ["ls", "ls -la", "als", "la-something"] {
        store
            .save(HistoryItem::from_command_line(String::from(cmd)))
            .unwrap();
    }
    let mut exact = SearchQuery::everything(SearchDirection::Forward);
    exact.filter.command_line = Some(CommandLineSearch::Exact(String::from("ls")));
    assert_eq!(cmds_of(&store.search(exact).unwrap()), vec![String::from("ls")]);

    let mut prefix = SearchQuery::everything(SearchDirection::Forward);
    prefix.filter.command_line = Some(CommandLineSearch::Prefix(String::from("ls")));
    assert_eq!(
        cmds_of(&store.search(prefix).unwrap()),
        vec![String::from("ls"), String::from("ls -la")]
    );

    let mut sub = SearchQuery::everything(SearchDirection::Forward);
    sub.filter.command_line = Some(CommandLineSearch::Substring(String::from("la")));
    assert_eq!(
        cmds_of(&store.search(sub).unwrap()),
        vec![String::from("ls -la"), String::from("la-something")]
    );
}

#[test]
fn pattern_metacharacters_are_matched_literally() {
    let mut store = SqliteBackedHistory::in_memory().unwrap();
    for cmd in ["100%", "100x", "a_b", "axb", "c\\d", "cxd"] {
        store
            .save(HistoryItem::from_command_line(String::from(cmd)))
            .unwrap();
    }
    let mut sub = SearchQuery::everything(SearchDirection::Forward);
    sub.filter.command_line = Some(CommandLineSearch::Substring(String::from("0%")));
    assert_eq!(cmds_of(&store.search(sub).unwrap()), vec![String::from("100%")]);

    let mut pre = SearchQuery::everything(SearchDirection::Forward);
    pre.filter.command_line = Some(CommandLineSearch::Prefix(String::from("a_")));
    assert_eq!(cmds_of(&store.search(pre).unwrap()), vec![String::from("a_b")]);

    let mut bs = SearchQuery::everything(SearchDirection::Forward);
    bs.filter.command_line = Some(CommandLineSearch::Substring(String::from("c\\")));
    assert_eq!(cmds_of(&store.search(bs).unwrap()), vec![String::from("c\\d")]);
}

#[test]
fn start_bound_is_exclusive_in_both_directions() {
    let mut store = SqliteBackedHistory::in_memory().unwrap();
    for cmd in ["a", "b", "c"] {
        store
            .save(HistoryItem::from_command_line(String::from(cmd)))
            .unwrap();
    }
    let mut fwd = SearchQuery::everything(SearchDirection::Forward);
    fwd.start_id = Some(HistoryItemId::new(1));
    assert_eq!(ids_of(&store.search(fwd).unwrap()), vec![2, 3]);

    let mut bwd = SearchQuery::everything(SearchDirection::Backward);
    bwd.start_id = Some(HistoryItemId::new(3));
    assert_eq!(ids_of(&store.search(bwd).unwrap()), vec![2, 1]);
}

#[test]
fn end_bound_is_inclusive_in_both_directions() {
    let mut store = SqliteBackedHistory::in_memory().unwrap();
    for cmd in ["a", "b", "c"] {
        store
            .save(HistoryItem::from_command_line(String::from(cmd)))
            .unwrap();
    }
    let mut fwd = SearchQuery::everything(SearchDirection::Forward);
    fwd.end_id = Some(HistoryItemId::new(2));
    assert_eq!(ids_of(&store.search(fwd).unwrap()), vec![1, 2]);

    let mut bwd = SearchQuery::everything(SearchDirection::Backward);
    bwd.end_id = Some(HistoryItemId::new(2));
    assert_eq!(ids_of(&store.search(bwd).unwrap()), vec![3, 2]);
}

#[test]
fn time_bounds_follow_direction() {
    let mut store = SqliteBackedHistory::in_memory().unwrap();
    for (cmd, ts) in [("a", 100), ("b", 200), ("c", 300)] {
        let mut item = HistoryItem::from_command_line(String::from(cmd));
        item.start_timestamp = Some(ts);
        store.save(item).unwrap();
    }
    let mut fwd = SearchQuery::everything(SearchDirection::Forward);
    fwd.start_time = Some(100);
    fwd.end_time = Some(300);
    assert_eq!(cmds_of(&store.search(fwd).unwrap()), vec![String::from("b"), String::from("c")]);

    let mut bwd = SearchQuery::everything(SearchDirection::Backward);
    bwd.start_time = Some(300);
    bwd.end_time = Some(100);
    assert_eq!(cmds_of(&store.search(bwd).unwrap()), vec![String::from("b"), String::from("a")]);
}

#[test]
fn limit_truncates_search_but_not_count() {
    let mut store = SqliteBackedHistory::in_memory().unwrap();
    for cmd in ["a", "b", "c"] {
        store
            .save(HistoryItem::from_command_line(String::from(cmd)))
            .unwrap();
    }
    let mut limited = SearchQuery::everything(SearchDirection::Backward);
    limited.limit = Some(2);
    assert_eq!(ids_of(&store.search(limited.clone()).unwrap()), vec![3, 2]);
    assert_eq!(store.count(limited).unwrap(), 3);
}

#[test]
fn delete_of_nonexistent_id_is_not_found() {
    let mut store = SqliteBackedHistory::in_memory().unwrap();
    store
        .save(HistoryItem::from_command_line(String::from("ls")))
        .unwrap();
    let before = store.count(SearchQuery::everything(SearchDirection::Forward)).unwrap();
    let result = store.delete(HistoryItemId::new(42));
    assert_eq!(result, Err(StorageError::NotFound));
    let after = store.count(SearchQuery::everything(SearchDirection::Forward)).unwrap();
    assert_eq!(before, after);
}

#[test]
fn delete_removes_the_row() {
    let mut store = SqliteBackedHistory::in_memory().unwrap();
    let saved = store
        .save(HistoryItem::from_command_line(String::from("ls")))
        .unwrap();
    let id = saved.id.unwrap();
    store.delete(id).unwrap();
    assert_eq!(store.load(id), Err(StorageError::NotFound));
}

#[test]
fn delete_outcome_maps_the_changed_count() {
    assert_eq!(delete_outcome(0), Err(StorageError::NotFound));
    assert_eq!(delete_outcome(1), Ok(()));
    assert_eq!(delete_outcome(3), Ok(()));
}

#[test]
fn count_outcome_rejects_a_negative_count() {
    assert_eq!(count_outcome(0), Ok(0));
    assert_eq!(count_outcome(5), Ok(5));
    assert!(matches!(count_outcome(-1), Err(StorageError::BackendError(_))));
}

#[test]
fn session_outcome_allocates_past_the_tracked_maximum() {
    assert_eq!(session_outcome(0, 1).unwrap().raw(), 1);
    assert_eq!(session_outcome(0, 7).unwrap().raw(), 7);
    assert_eq!(session_outcome(5, 3).unwrap().raw(), 6);
    assert!(matches!(session_outcome(i64::MAX, 1), Err(StorageError::BackendError(_))));
}

#[test]
fn save_outcome_holds_the_engine_to_the_identity_rules() {
    assert_eq!(save_outcome(Some(HistoryItemId::new(4)), None, 4).unwrap().raw(), 4);
    assert!(matches!(
        save_outcome(Some(HistoryItemId::new(4)), None, 5),
        Err(StorageError::BackendError(_))
    ));
    assert_eq!(save_outcome(None, Some(3), 7).unwrap().raw(), 7);
    assert_eq!(save_outcome(None, None, 1).unwrap().raw(), 1);
    assert!(matches!(save_outcome(None, Some(7), 7), Err(StorageError::BackendError(_))));
}

#[test]
fn load_outcome_pins_the_engine_answer() {
    assert_eq!(load_outcome(HistoryItemId::new(2), None), Err(StorageError::NotFound));
    let it = load_outcome(HistoryItemId::new(2), Some(bare_row(2, "ls"))).unwrap();
    assert_eq!(it.id.unwrap().raw(), 2);
    assert_eq!(it.command_line, "ls");
    assert!(matches!(
        load_outcome(HistoryItemId::new(2), Some(bare_row(3, "ls"))),
        Err(StorageError::BackendError(_))
    ));
}

#[test]
fn search_outcome_validates_rows_against_the_query() {
    let query = SearchQuery::everything(SearchDirection::Forward);
    let rows = vec![bare_row(1, "ls"), bare_row(2, "cd")];
    let items = search_outcome(&query, &rows).unwrap();
    assert_eq!(cmds_of(&items), vec![String::from("ls"), String::from("cd")]);

    let unordered = vec![bare_row(2, "cd"), bare_row(1, "ls")];
    assert!(matches!(
        search_outcome(&query, &unordered),
        Err(StorageError::BackendError(_))
    ));

    let mut filtered = SearchQuery::everything(SearchDirection::Forward);
    filtered.filter.command_line = Some(CommandLineSearch::Exact(String::from("ls")));
    let rows = vec![bare_row(1, "ls"), bare_row(2, "cd")];
    assert!(matches!(
        search_outcome(&filtered, &rows),
        Err(StorageError::BackendError(_))
    ));

    let mut limited = SearchQuery::everything(SearchDirection::Backward);
    limited.limit = Some(1);
    let rows = vec![bare_row(3, "c"), bare_row(2, "b"), bare_row(1, "a")];
    let items = search_outcome(&limited, &rows).unwrap();
    assert_eq!(cmds_of(&items), vec![String::from("c")]);
}

#[test]
fn load_of_missing_id_is_not_found() {
    let store = SqliteBackedHistory::in_memory().unwrap();
    assert_eq!(store.load(HistoryItemId::new(1)), Err(StorageError::NotFound));
}

#[test]
fn update_rewrites_under_same_identity() {
    let mut store = SqliteBackedHistory::in_memory().unwrap();
    let saved = store
        .save(HistoryItem::from_command_line(String::from("ls")))
        .unwrap();
    let id = saved.id.unwrap();
    store
        .update(id, |mut it| {
            it.command_line = String::from("ls -la");
            it
        })
        .unwrap();
    let loaded = store.load(id).unwrap();
    assert_eq!(loaded.command_line, "ls -la");
    assert_eq!(loaded.id.unwrap().raw(), id.raw());
}

#[test]
fn update_of_missing_id_is_not_found() {
    let mut store = SqliteBackedHistory::in_memory().unwrap();
    let result = store.update(HistoryItemId::new(9), |it| it);
    assert_eq!(result, Err(StorageError::NotFound));
}

#[test]
fn sync_succeeds() {
    let mut store = SqliteBackedHistory::in_memory().unwrap();
    assert_eq!(store.sync(), Ok(()));
}

#[test]
fn not_command_line_excludes_exact_text() {
    let mut store = SqliteBackedHistory::in_memory().unwrap();
    for cmd in ["ls", "cd", "ls"] {
        store
            .save(HistoryItem::from_command_line(String::from(cmd)))
            .unwrap();
    }
    let mut query = SearchQuery::everything(SearchDirection::Forward);
    query.filter.not_command_line = Some(String::from("ls"));
    assert_eq!(cmds_of(&store.search(query).unwrap()), vec![String::from("cd")]);
}

#[test]
fn cwd_filters_match_exactly_and_by_prefix() {
    let mut store = SqliteBackedHistory::in_memory().unwrap();
    for (cmd, cwd) in [("a", "/tmp"), ("b", "/tmp/sub"), ("c", "/var")] {
        let mut item = HistoryItem::from_command_line(String::from(cmd));
        item.cwd = Some(String::from(cwd));
        store.save(item).unwrap();
    }
    let mut exact = SearchQuery::everything(SearchDirection::Forward);
    exact.filter.cwd_exact = Some(String::from("/tmp"));
    assert_eq!(cmds_of(&store.search(exact).unwrap()), vec![String::from("a")]);

    let mut prefix = SearchQuery::everything(SearchDirection::Forward);
    prefix.filter.cwd_prefix = Some(String::from("/tmp"));
    assert_eq!(
        cmds_of(&store.search(prefix).unwrap()),
        vec![String::from("a"), String::from("b")]
    );
}

#[test]
fn prefix_search_end_to_end() {
    let mut store = SqliteBackedHistory::in_memory().unwrap();
    for cmd in ["ls", "cd /tmp", "ls -la"] {
        store
            .save(HistoryItem::from_command_line(String::from(cmd)))
            .unwrap();
    }
    let mut query = SearchQuery::everything(SearchDirection::Forward);
    query.filter.command_line = Some(CommandLineSearch::Prefix(String::from("ls")));
    let found = store.search(query).unwrap();
    assert_eq!(ids_of(&found), vec![1, 3]);
    assert_eq!(cmds_of(&found), vec![String::from("ls"), String::from("ls -la")]);
}

#[test]
fn search_agrees_with_the_verified_matcher() {
    let mut store = SqliteBackedHistory::in_memory().unwrap();
    let cases = [
        ("ls", Some("h1"), Some(0)),
        ("ls -la", Some("h2"), Some(1)),
        ("cd /tmp", Some("h1"), Some(0)),
        ("make test", None, None),
    ];
    for (cmd, host, status) in cases {
        let mut item = HistoryItem::from_command_line(String::from(cmd));
        item.hostname = host.map(String::from);
        item.exit_status = status;
        store.save(item).unwrap();
    }
    let all = store.search(SearchQuery::everything(SearchDirection::Forward)).unwrap();
    let mut query = SearchQuery::everything(SearchDirection::Forward);
    query.filter.command_line = Some(CommandLineSearch::Prefix(String::from("ls")));
    query.filter.exit_successful = Some(true);
    query.start_id = Some(HistoryItemId::new(0));
    let found = store.search(query.clone()).unwrap();
    for item in &all {
        let expected = matches_query(&query, item);
        let present = found.iter().any(|f| f.id == item.id);
        assert_eq!(expected, present, "disagreement on {:?}", item.command_line);
    }
}

#[test]
fn backward_search_agrees_with_the_verified_matcher() {
    let mut store = SqliteBackedHistory::in_memory().unwrap();
    let cases = [
        ("ls", Some("/tmp"), Some(100)),
        ("ls -la", Some("/tmp/sub"), Some(200)),
        ("cd /tmp", Some("/var"), Some(300)),
        ("du -sh", None, None),
    ];
    for (cmd, cwd, ts) in cases {
        let mut item = HistoryItem::from_command_line(String::from(cmd));
        item.cwd = cwd.map(String::from);
        item.start_timestamp = ts;
        store.save(item).unwrap();
    }
    let all = store.search(SearchQuery::everything(SearchDirection::Forward)).unwrap();
    let mut query = SearchQuery::everything(SearchDirection::Backward);
    query.filter.cwd_prefix = Some(String::from("/tmp"));
    query.start_time = Some(250);
    query.start_id = Some(HistoryItemId::new(4));
    let found = store.search(query.clone()).unwrap();
    for item in &all {
        let expected = matches_query(&query, item);
        let present = found.iter().any(|f| f.id == item.id);
        assert_eq!(expected, present, "disagreement on {:?}", item.command_line);
    }
}

#[test]
fn filter_anything_passes_everything() {
    let filter = SearchFilter::anything();
    assert!(filter.command_line.is_none());
    assert!(filter.not_command_line.is_none());
    assert!(filter.hostname.is_none());
    assert!(filter.cwd_exact.is_none());
    assert!(filter.cwd_prefix.is_none());
    assert!(filter.exit_successful.is_none());
}
