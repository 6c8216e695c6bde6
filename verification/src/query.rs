//! The search-query model: a declarative description of a filtered,
//! directional, bounded scan over the store, together with the exact
//! semantics of when an item matches a query.

use vstd::prelude::*;

use crate::item::{HistoryItem, HistoryItemExtraInfo, HistoryItemId};

verus! {

/// Which way a search scans the store: toward larger or smaller identities.
#[derive(Debug, Copy, Clone, PartialEq, Eq, Structural)]
pub enum SearchDirection {
    /// Scan toward larger identities; results come back ascending by id.
    Forward,
    /// Scan toward smaller identities; results come back descending by id.
    Backward,
}

/// How the command-line filter compares against a stored command line.
#[derive(Debug, Clone, PartialEq, Eq)]
pub enum CommandLineSearch {
    /// Matches only the literal command line.
    Exact(String),
    /// Matches any command line beginning with the given text.
    Prefix(String),
    /// Matches any command line containing the given text.
    Substring(String),
}

/// The filter part of a search query; every field is optional and the
/// present ones are combined by logical conjunction.
#[derive(Debug, Clone, PartialEq, Eq)]
pub struct SearchFilter {
    /// Match on the command line.
    pub command_line: Option<CommandLineSearch>,
    /// Exclude this exact command line.
    pub not_command_line: Option<String>,
    /// Require this exact hostname.
    pub hostname: Option<String>,
    /// Require this exact working directory.
    pub cwd_exact: Option<String>,
    /// Require the working directory to begin with this text.
    pub cwd_prefix: Option<String>,
    /// `true` requires exit status zero; `false` requires a nonzero one.
    pub exit_successful: Option<bool>,
}

impl SearchFilter {
    /// A filter with no condition set: everything passes.
    pub fn anything() -> (r: SearchFilter)
        ensures
            r.command_line is None,
            r.not_command_line is None,
            r.hostname is None,
            r.cwd_exact is None,
            r.cwd_prefix is None,
            r.exit_successful is None,
    {
        SearchFilter {
            command_line: None,
            not_command_line: None,
            hostname: None,
            cwd_exact: None,
            cwd_prefix: None,
            exit_successful: None,
        }
    }
}

/// A filtered, directional, bounded scan. The range bounds are exclusive
/// for the `start_*` edge and inclusive for the `end_*` edge, and both are
/// interpreted relative to `direction` (see [`query_matches`]).
#[derive(Debug, Clone, PartialEq, Eq)]
pub struct SearchQuery {
    /// Whether to scan ascending or descending by identity.
    pub direction: SearchDirection,
    /// Only items started strictly after (`Forward`) or strictly before
    /// (`Backward`) this instant, in milliseconds since the epoch.
    pub start_time: Option<i64>,
    /// Only items started at or before (`Forward`) or at or after
    /// (`Backward`) this instant, in milliseconds since the epoch.
    pub end_time: Option<i64>,
    /// Only items with identity strictly past this one, in scan direction.
    pub start_id: Option<HistoryItemId>,
    /// Only items with identity at or before this one, in scan direction.
    pub end_id: Option<HistoryItemId>,
    /// Truncate the result to this many items.
    pub limit: Option<i64>,
    /// The filter conditions, combined by conjunction.
    pub filter: SearchFilter,
}

impl SearchQuery {
    /// A query that scans everything in the given direction.
    pub fn everything(direction: SearchDirection) -> (r: SearchQuery)
        ensures
            r.direction == direction,
            r.start_time is None,
            r.end_time is None,
            r.start_id is None,
            r.end_id is None,
            r.limit is None,
            r.filter.command_line is None,
            r.filter.not_command_line is None,
            r.filter.hostname is None,
            r.filter.cwd_exact is None,
            r.filter.cwd_prefix is None,
            r.filter.exit_successful is None,
    {
        SearchQuery {
            direction,
            start_time: None,
            end_time: None,
            start_id: None,
            end_id: None,
            limit: None,
            filter: SearchFilter::anything(),
        }
    }
}

/// Whether `needle` occurs contiguously somewhere inside `hay`.
pub open spec fn seq_contains_sub(hay: Seq<char>, needle: Seq<char>) -> bool {
    exists|i: int|
        0 <= i && i + needle.len() <= hay.len() && #[trigger] hay.subrange(i, i + needle.len())
            == needle
}

/// When a command-line match kind accepts a stored command line.
pub open spec fn cmdline_matches(m: CommandLineSearch, s: Seq<char>) -> bool {
    match m {
        CommandLineSearch::Exact(e) => s == e@,
        CommandLineSearch::Prefix(p) => p@.is_prefix_of(s),
        CommandLineSearch::Substring(t) => seq_contains_sub(s, t@),
    }
}

/// When an item satisfies every present condition of a filter.
pub open spec fn filter_matches<E: HistoryItemExtraInfo>(
    f: SearchFilter,
    item: HistoryItem<E>,
) -> bool {
    &&& match f.command_line {
        Some(m) => cmdline_matches(m, item.command_line@),
        None => true,
    }
    &&& match f.not_command_line {
        Some(n) => item.command_line@ != n@,
        None => true,
    }
    &&& match f.hostname {
        Some(h) => item.hostname matches Some(ih) && ih@ == h@,
        None => true,
    }
    &&& match f.cwd_exact {
        Some(c) => item.cwd matches Some(ic) && ic@ == c@,
        None => true,
    }
    &&& match f.cwd_prefix {
        Some(p) => item.cwd matches Some(ic) && p@.is_prefix_of(ic@),
        None => true,
    }
    &&& match f.exit_successful {
        Some(true) => item.exit_status == Some(0i64),
        Some(false) => item.exit_status matches Some(c) && c != 0,
        None => true,
    }
}

/// When an item lies inside the directional time and identity bounds of a
/// query: `start_*` is an exclusive edge, `end_*` an inclusive one, and the
/// comparisons invert with the direction so that each bound constrains the
/// same semantic edge of the scan either way.
pub open spec fn bounds_match<E: HistoryItemExtraInfo>(
    q: SearchQuery,
    item: HistoryItem<E>,
) -> bool {
    &&& match q.start_time {
        Some(st) => item.start_timestamp matches Some(ts) && (if q.direction is Forward {
            ts > st
        } else {
            ts < st
        }),
        None => true,
    }
    &&& match q.end_time {
        Some(et) => item.start_timestamp matches Some(ts) && (if q.direction is Forward {
            ts <= et
        } else {
            ts >= et
        }),
        None => true,
    }
    &&& match q.start_id {
        Some(sid) => item.id matches Some(iid) && (if q.direction is Forward {
            iid@ > sid@
        } else {
            iid@ < sid@
        }),
        None => true,
    }
    &&& match q.end_id {
        Some(eid) => item.id matches Some(iid) && (if q.direction is Forward {
            iid@ <= eid@
        } else {
            iid@ >= eid@
        }),
        None => true,
    }
}

/// The meaning of a search query: an item belongs to the result set exactly
/// when it lies inside the bounds and satisfies the whole filter.
pub open spec fn query_matches<E: HistoryItemExtraInfo>(
    q: SearchQuery,
    item: HistoryItem<E>,
) -> bool {
    bounds_match(q, item) && filter_matches(q.filter, item)
}

/// Whether `x` comes strictly before `y` in a scan of the given direction:
/// both carry identities, and `x`'s is smaller (`Forward`) or greater
/// (`Backward`).
pub open spec fn id_before<E: HistoryItemExtraInfo>(
    d: SearchDirection,
    x: HistoryItem<E>,
    y: HistoryItem<E>,
) -> bool {
    &&& x.id matches Some(xi) && y.id matches Some(yi) && (if d is Forward {
        xi@ < yi@
    } else {
        xi@ > yi@
    })
}

/// Whether a sequence of items is strictly ordered by identity in the
/// given scan direction: ascending for `Forward`, descending for
/// `Backward`.
pub open spec fn ordered_by_id<E: HistoryItemExtraInfo>(
    d: SearchDirection,
    s: Seq<HistoryItem<E>>,
) -> bool {
    forall|a: int, b: int| 0 <= a < b < s.len() ==> id_before(d, #[trigger] s[a], #[trigger] s[b])
}

/// Filters combine by conjunction: a query whose filter sets several
/// conditions matches an item exactly when each condition, taken alone on
/// an otherwise identical query, matches it. Stated here for the hostname
/// and exit-status conditions: dropping one of the two from the filter
/// gives the two one-condition queries whose conjunction is the original.
pub proof fn lemma_filter_conjunction<E: HistoryItemExtraInfo>(
    q: SearchQuery,
    qa: SearchQuery,
    qb: SearchQuery,
    item: HistoryItem<E>,
)
    requires
        qa == (SearchQuery { filter: SearchFilter { exit_successful: None, ..q.filter }, ..q }),
        qb == (SearchQuery { filter: SearchFilter { hostname: None, ..q.filter }, ..q }),
    ensures
        query_matches(q, item) <==> query_matches(qa, item) && query_matches(qb, item),
{
}

/// The three match kinds mean exactly equality, prefix, and contiguous
/// containment of the given text.
pub proof fn lemma_match_kinds(e: String, p: String, t: String, s: Seq<char>)
    ensures
        cmdline_matches(CommandLineSearch::Exact(e), s) <==> s == e@,
        cmdline_matches(CommandLineSearch::Prefix(p), s) <==> (p@.len() <= s.len()
            && s.subrange(0, p@.len() as int) == p@),
        cmdline_matches(CommandLineSearch::Substring(t), s) <==> seq_contains_sub(s, t@),
{
}

/// The `start_id` bound is exclusive in both directions: an item carrying
/// exactly the bounding identity never matches the query.
pub proof fn lemma_start_id_excluded<E: HistoryItemExtraInfo>(
    q: SearchQuery,
    item: HistoryItem<E>,
)
    requires
        q.start_id matches Some(sid) && item.id matches Some(iid) && iid@ == sid@,
    ensures
        !query_matches(q, item),
{
}

/// The `end_id` bound is inclusive in both directions: it alone never
/// rejects an item carrying exactly the bounding identity.
pub proof fn lemma_end_id_included<E: HistoryItemExtraInfo>(q: SearchQuery, item: HistoryItem<E>)
    requires
        q.end_id matches Some(eid) && item.id matches Some(iid) && iid@ == eid@,
        bounds_match((SearchQuery { end_id: None, ..q }), item),
    ensures
        bounds_match(q, item),
{
}

/// Whether `p` is a prefix of `s`, decided character by character.
pub fn str_is_prefix(p: &str, s: &str) -> (r: bool)
    ensures
        r == p@.is_prefix_of(s@),
{
    let pl = p.unicode_len();
    let sl = s.unicode_len();
    if pl > sl {
        assert(!p@.is_prefix_of(s@));
        return false;
    }
    let mut i: usize = 0;
    while i < pl
        invariant
            i <= pl,
            pl == p@.len(),
            sl == s@.len(),
            pl <= sl,
            forall|j: int| 0 <= j < i ==> p@[j] == s@[j],
        decreases pl - i,
    {
        if p.get_char(i) != s.get_char(i) {
            assert(s@.subrange(0, pl as int)[i as int] != p@[i as int]);
            return false;
        }
        i += 1;
    }
    assert(s@.subrange(0, pl as int) =~= p@);
    true
}

/// Whether `needle` occurs contiguously inside `hay`, by scanning every
/// starting position.
pub fn str_contains_sub(hay: &str, needle: &str) -> (r: bool)
    ensures
        r == seq_contains_sub(hay@, needle@),
{
    let nl = needle.unicode_len();
    let hl = hay.unicode_len();
    if nl > hl {
        assert(!seq_contains_sub(hay@, needle@));
        return false;
    }
    let mut i: usize = 0;
    while i <= hl - nl
        invariant
            nl == needle@.len(),
            hl == hay@.len(),
            nl <= hl,
            i <= hl - nl + 1,
            forall|j: int|
                0 <= j < i ==> #[trigger] hay@.subrange(j, j + needle@.len()) != needle@,
        decreases hl - nl + 1 - i,
    {
        let tail = hay.substring_char(i, hl);
        if str_is_prefix(needle, tail) {
            assert(hay@.subrange(i as int, i + needle@.len()) =~= tail@.subrange(
                0,
                needle@.len() as int,
            ));
            return true;
        }
        assert(hay@.subrange(i as int, i + needle@.len()) =~= tail@.subrange(
            0,
            needle@.len() as int,
        ));
        i += 1;
    }
    assert(forall|j: int|
        0 <= j && j + needle@.len() <= hay@.len() ==> #[trigger] hay@.subrange(
            j,
            j + needle@.len(),
        ) != needle@);
    false
}

/// Decides [`query_matches`]: whether one item belongs to the result set of
/// a query. This is the reference meaning the backend's lowered statements
/// are held to.
pub fn matches_query<E: HistoryItemExtraInfo>(q: &SearchQuery, item: &HistoryItem<E>) -> (r: bool)
    ensures
        r == query_matches(*q, *item),
{
    let forward = match q.direction {
        SearchDirection::Forward => true,
        SearchDirection::Backward => false,
    };
    match q.start_time {
        Some(st) => match item.start_timestamp {
            Some(ts) => if forward && !(ts > st) {
                return false;
            } else if !forward && !(ts < st) {
                return false;
            },
            None => { return false; },
        },
        None => {},
    }
    match q.end_time {
        Some(et) => match item.start_timestamp {
            Some(ts) => if forward && !(ts <= et) {
                return false;
            } else if !forward && !(ts >= et) {
                return false;
            },
            None => { return false; },
        },
        None => {},
    }
    match q.start_id {
        Some(sid) => match item.id {
            Some(iid) => if forward && !(iid.raw() > sid.raw()) {
                return false;
            } else if !forward && !(iid.raw() < sid.raw()) {
                return false;
            },
            None => { return false; },
        },
        None => {},
    }
    match q.end_id {
        Some(eid) => match item.id {
            Some(iid) => if forward && !(iid.raw() <= eid.raw()) {
                return false;
            } else if !forward && !(iid.raw() >= eid.raw()) {
                return false;
            },
            None => { return false; },
        },
        None => {},
    }
    match &q.filter.command_line {
        Some(CommandLineSearch::Exact(e)) => if !item.command_line.eq(e) {
            return false;
        },
        Some(CommandLineSearch::Prefix(p)) => if !str_is_prefix(p.as_str(),
            item.command_line.as_str(),
        ) {
            return false;
        },
        Some(CommandLineSearch::Substring(t)) => if !str_contains_sub(
            item.command_line.as_str(),
            t.as_str(),
        ) {
            return false;
        },
        None => {},
    }
    match &q.filter.not_command_line {
        Some(n) => if item.command_line.eq(n) {
            return false;
        },
        None => {},
    }
    match (&q.filter.hostname, &item.hostname) {
        (Some(h), Some(ih)) => if !ih.eq(h) {
            return false;
        },
        (Some(_), None) => { return false; },
        (None, _) => {},
    }
    match (&q.filter.cwd_exact, &item.cwd) {
        (Some(c), Some(ic)) => if !ic.eq(c) {
            return false;
        },
        (Some(_), None) => { return false; },
        (None, _) => {},
    }
    match (&q.filter.cwd_prefix, &item.cwd) {
        (Some(p), Some(ic)) => if !str_is_prefix(p.as_str(), ic.as_str()) {
            return false;
        },
        (Some(_), None) => { return false; },
        (None, _) => {},
    }
    match q.filter.exit_successful {
        Some(want_success) => match item.exit_status {
            Some(c) => if want_success && c != 0 {
                return false;
            } else if !want_success && c == 0 {
                return false;
            },
            None => { return false; },
        },
        None => {},
    }
    true
}

} // verus!
