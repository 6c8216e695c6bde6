//! Query lowering: translating a [`SearchQuery`] into a parameterized
//! statement with direction-aware ordering and boundary comparisons.
//!
//! Every filter value travels as a bound parameter, never interpolated into
//! the statement text, and pattern metacharacters in user-supplied text are
//! escaped so filter values are always taken literally.

use vstd::prelude::*;

use crate::query::{CommandLineSearch, SearchDirection, SearchQuery};

verus! {

/// A dynamically typed bound-parameter payload: the small tagged value the
/// query builder hands to the database binding.
#[derive(Debug, Clone, PartialEq, Eq)]
pub enum SqlValue {
    /// A 64-bit integer parameter.
    Int(i64),
    /// A text parameter.
    Text(String),
    /// An explicit null parameter.
    Null,
}

/// The mathematical value of a [`SqlValue`].
pub enum SqlValueModel {
    /// An integer.
    Int(int),
    /// A sequence of characters.
    Text(Seq<char>),
    /// Null.
    Null,
}

impl View for SqlValue {
    type V = SqlValueModel;

    open spec fn view(&self) -> SqlValueModel {
        match self {
            SqlValue::Int(i) => SqlValueModel::Int(*i as int),
            SqlValue::Text(s) => SqlValueModel::Text(s@),
            SqlValue::Null => SqlValueModel::Null,
        }
    }
}

/// One named bound parameter of a lowered statement.
#[derive(Debug, Clone, PartialEq, Eq)]
pub struct NamedParam {
    /// The placeholder name, including the leading colon.
    pub name: &'static str,
    /// The value bound to the placeholder.
    pub value: SqlValue,
}

impl View for NamedParam {
    type V = (Seq<char>, SqlValueModel);

    open spec fn view(&self) -> (Seq<char>, SqlValueModel) {
        (self.name@, self.value@)
    }
}

/// How one character is neutralized for a pattern-matching predicate: the
/// wildcards and the escape character itself get a leading escape.
pub open spec fn esc_char(c: char) -> Seq<char> {
    if c == '%' || c == '_' || c == '\\' {
        seq!['\\', c]
    } else {
        seq![c]
    }
}

/// The whole text with every pattern metacharacter escaped, so that it is
/// matched literally by a pattern predicate under escape character `\`.
pub open spec fn escape_like_model(s: Seq<char>) -> Seq<char>
    decreases s.len(),
{
    if s.len() == 0 {
        Seq::empty()
    } else {
        escape_like_model(s.drop_last()) + esc_char(s.last())
    }
}

/// Escapes `%`, `_` and `\` in user-supplied text with a leading `\`, so
/// that a pattern predicate under escape character `\` matches the text
/// literally.
pub fn escape_like(s: &str) -> (r: String)
    ensures
        r@ == escape_like_model(s@),
{
    let n = s.unicode_len();
    let mut out = String::new();
    let mut i: usize = 0;
    while i < n
        invariant
            i <= n,
            n == s@.len(),
            out@ == escape_like_model(s@.subrange(0, i as int)),
        decreases n - i,
    {
        let c = s.get_char(i);
        if c == '%' {
            out.append("\\%");
            proof {
                reveal_strlit("\\%");
                assert(out@ =~= escape_like_model(s@.subrange(0, i as int)) + esc_char(c));
            }
        } else if c == '_' {
            out.append("\\_");
            proof {
                reveal_strlit("\\_");
                assert(out@ =~= escape_like_model(s@.subrange(0, i as int)) + esc_char(c));
            }
        } else if c == '\\' {
            out.append("\\\\");
            proof {
                reveal_strlit("\\\\");
                assert(out@ =~= escape_like_model(s@.subrange(0, i as int)) + esc_char(c));
            }
        } else {
            let piece = s.substring_char(i, i + 1);
            out.append(piece);
            proof {
                assert(piece@ =~= seq![c]);
                assert(out@ =~= escape_like_model(s@.subrange(0, i as int)) + esc_char(c));
            }
        }
        proof {
            let pre = s@.subrange(0, i + 1);
            assert(pre.drop_last() =~= s@.subrange(0, i as int));
            assert(pre.last() == c);
        }
        i += 1;
    }
    proof {
        assert(s@.subrange(0, n as int) =~= s@);
    }
    out
}

/// The ordering keyword of a direction.
pub open spec fn dir_keyword(d: SearchDirection) -> Seq<char> {
    if d is Forward {
        "asc"@
    } else {
        "desc"@
    }
}

/// Joins one more condition onto a conjunction of conditions.
pub open spec fn and_join(acc: Seq<char>, clause: Seq<char>) -> Seq<char> {
    if acc.len() == 0 {
        clause
    } else {
        acc + " and "@ + clause
    }
}

/// The conjunction after the directional time and identity bounds of a
/// query have been joined onto `w`.
pub open spec fn where_bounds(q: SearchQuery, w: Seq<char>) -> Seq<char> {
    let fwd = q.direction is Forward;
    let w = if q.start_time is Some {
        and_join(
            w,
            if fwd {
                "start_timestamp > :start_time"@
            } else {
                "start_timestamp < :start_time"@
            },
        )
    } else {
        w
    };
    let w = if q.end_time is Some {
        and_join(
            w,
            if fwd {
                "start_timestamp <= :end_time"@
            } else {
                "start_timestamp >= :end_time"@
            },
        )
    } else {
        w
    };
    let w = if q.start_id is Some {
        and_join(w, if fwd { "id > :start_id"@ } else { "id < :start_id"@ })
    } else {
        w
    };
    let w = if q.end_id is Some {
        and_join(w, if fwd { "id <= :end_id"@ } else { "id >= :end_id"@ })
    } else {
        w
    };
    w
}

/// The conjunction after the filter conditions of a query have been joined
/// onto `w`.
pub open spec fn where_filters(q: SearchQuery, w: Seq<char>) -> Seq<char> {
    let w = match q.filter.command_line {
        Some(CommandLineSearch::Exact(_)) => and_join(w, "command_line = :command_line"@),
        Some(_) => and_join(w, "command_line like :command_line escape '\\'"@),
        None => w,
    };
    let w = if q.filter.not_command_line is Some {
        and_join(w, "command_line != :not_cmd"@)
    } else {
        w
    };
    let w = if q.filter.hostname is Some {
        and_join(w, "hostname = :hostname"@)
    } else {
        w
    };
    let w = if q.filter.cwd_exact is Some {
        and_join(w, "cwd = :cwd"@)
    } else {
        w
    };
    let w = if q.filter.cwd_prefix is Some {
        and_join(w, "cwd like :cwd_like escape '\\'"@)
    } else {
        w
    };
    let w = match q.filter.exit_successful {
        Some(true) => and_join(w, "exit_status = 0"@),
        Some(false) => and_join(w, "exit_status != 0"@),
        None => w,
    };
    w
}

/// The conjunction of condition texts of a query, in the order the builder
/// emits them; empty when the query constrains nothing.
pub open spec fn where_clauses(q: SearchQuery) -> Seq<char> {
    where_filters(q, where_bounds(q, Seq::<char>::empty()))
}

/// The condition part of the lowered statement: the conjunction of the
/// present conditions, or a trivially true one where nothing constrains.
pub open spec fn where_text(q: SearchQuery) -> Seq<char> {
    if where_clauses(q).len() == 0 {
        "true"@
    } else {
        where_clauses(q)
    }
}

/// The whole lowered statement text for a query and a select expression.
pub open spec fn sql_text(q: SearchQuery, select: Seq<char>) -> Seq<char> {
    "select "@ + select + " from history where "@ + where_text(q) + " order by id "@
        + dir_keyword(q.direction) + (if q.limit is Some {
        " limit :limit"@
    } else {
        Seq::<char>::empty()
    })
}

/// The parameters of the bounds and the limit, appended to `p` in emission
/// order.
pub open spec fn params_bounds(
    q: SearchQuery,
    p: Seq<(Seq<char>, SqlValueModel)>,
) -> Seq<(Seq<char>, SqlValueModel)> {
    let p = match q.start_time {
        Some(st) => p.push((":start_time"@, SqlValueModel::Int(st as int))),
        None => p,
    };
    let p = match q.end_time {
        Some(et) => p.push((":end_time"@, SqlValueModel::Int(et as int))),
        None => p,
    };
    let p = match q.start_id {
        Some(sid) => p.push((":start_id"@, SqlValueModel::Int(sid@))),
        None => p,
    };
    let p = match q.end_id {
        Some(eid) => p.push((":end_id"@, SqlValueModel::Int(eid@))),
        None => p,
    };
    let p = match q.limit {
        Some(l) => p.push((":limit"@, SqlValueModel::Int(l as int))),
        None => p,
    };
    p
}

/// The parameters of the filter conditions, appended to `p` in emission
/// order; pattern parameters carry the escaped text with the wildcard
/// appended outside the escaped part.
pub open spec fn params_filters(
    q: SearchQuery,
    p: Seq<(Seq<char>, SqlValueModel)>,
) -> Seq<(Seq<char>, SqlValueModel)> {
    let p = match q.filter.command_line {
        Some(CommandLineSearch::Exact(e)) => p.push((":command_line"@, SqlValueModel::Text(e@))),
        Some(CommandLineSearch::Prefix(pre)) => p.push(
            (":command_line"@, SqlValueModel::Text(escape_like_model(pre@) + "%"@)),
        ),
        Some(CommandLineSearch::Substring(t)) => p.push(
            (":command_line"@, SqlValueModel::Text("%"@ + escape_like_model(t@) + "%"@)),
        ),
        None => p,
    };
    let p = match q.filter.not_command_line {
        Some(n) => p.push((":not_cmd"@, SqlValueModel::Text(n@))),
        None => p,
    };
    let p = match q.filter.hostname {
        Some(h) => p.push((":hostname"@, SqlValueModel::Text(h@))),
        None => p,
    };
    let p = match q.filter.cwd_exact {
        Some(c) => p.push((":cwd"@, SqlValueModel::Text(c@))),
        None => p,
    };
    let p = match q.filter.cwd_prefix {
        Some(pre) => p.push((":cwd_like"@, SqlValueModel::Text(escape_like_model(pre@) + "%"@))),
        None => p,
    };
    p
}

/// The bound parameters of the lowered statement, in emission order. Every
/// filter value appears here and only here.
pub open spec fn sql_params(q: SearchQuery) -> Seq<(Seq<char>, SqlValueModel)> {
    params_filters(q, params_bounds(q, Seq::<(Seq<char>, SqlValueModel)>::empty()))
}

/// The mathematical value of a built parameter list.
pub open spec fn params_model(s: Seq<NamedParam>) -> Seq<(Seq<char>, SqlValueModel)> {
    s.map_values(|p: NamedParam| p@)
}

/// Appends one condition to the conjunction being built, separating it from
/// an already present one.
fn push_clause(wheres: &mut String, clause: &str)
    ensures
        final(wheres)@ == and_join(old(wheres)@, clause@),
{
    if !wheres.as_str().is_empty() {
        wheres.append(" and ");
    }
    wheres.append(clause);
}

/// Emits the conditions and parameters of the bounds and the limit.
#[verifier::rlimit(100)]
fn emit_bounds(q: &SearchQuery, wheres: &mut String, params: &mut Vec<NamedParam>)
    ensures
        final(wheres)@ == where_bounds(*q, old(wheres)@),
        params_model(final(params)@) == params_bounds(*q, params_model(old(params)@)),
{
    let forward = match q.direction {
        SearchDirection::Forward => true,
        SearchDirection::Backward => false,
    };
    let ghost fwd = q.direction is Forward;
    let ghost w0 = wheres@;
    let ghost p0 = params_model(params@);
    match q.start_time {
        Some(st) => {
            if forward {
                push_clause(wheres, "start_timestamp > :start_time");
            } else {
                push_clause(wheres, "start_timestamp < :start_time");
            }
            params.push(NamedParam { name: ":start_time", value: SqlValue::Int(st) });
        },
        None => {},
    }
    let ghost w1 = if q.start_time is Some {
        and_join(
            w0,
            if fwd {
                "start_timestamp > :start_time"@
            } else {
                "start_timestamp < :start_time"@
            },
        )
    } else {
        w0
    };
    let ghost p1 = match q.start_time {
        Some(st) => p0.push((":start_time"@, SqlValueModel::Int(st as int))),
        None => p0,
    };
    proof {
        assert(wheres@ == w1);
        assert(params_model(params@) =~= p1);
    }
    match q.end_time {
        Some(et) => {
            if forward {
                push_clause(wheres, "start_timestamp <= :end_time");
            } else {
                push_clause(wheres, "start_timestamp >= :end_time");
            }
            params.push(NamedParam { name: ":end_time", value: SqlValue::Int(et) });
        },
        None => {},
    }
    let ghost w2 = if q.end_time is Some {
        and_join(
            w1,
            if fwd {
                "start_timestamp <= :end_time"@
            } else {
                "start_timestamp >= :end_time"@
            },
        )
    } else {
        w1
    };
    let ghost p2 = match q.end_time {
        Some(et) => p1.push((":end_time"@, SqlValueModel::Int(et as int))),
        None => p1,
    };
    proof {
        assert(wheres@ == w2);
        assert(params_model(params@) =~= p2);
    }
    match q.start_id {
        Some(sid) => {
            if forward {
                push_clause(wheres, "id > :start_id");
            } else {
                push_clause(wheres, "id < :start_id");
            }
            params.push(NamedParam { name: ":start_id", value: SqlValue::Int(sid.raw()) });
        },
        None => {},
    }
    let ghost w3 = if q.start_id is Some {
        and_join(w2, if fwd { "id > :start_id"@ } else { "id < :start_id"@ })
    } else {
        w2
    };
    let ghost p3 = match q.start_id {
        Some(sid) => p2.push((":start_id"@, SqlValueModel::Int(sid@))),
        None => p2,
    };
    proof {
        assert(wheres@ == w3);
        assert(params_model(params@) =~= p3);
    }
    match q.end_id {
        Some(eid) => {
            if forward {
                push_clause(wheres, "id <= :end_id");
            } else {
                push_clause(wheres, "id >= :end_id");
            }
            params.push(NamedParam { name: ":end_id", value: SqlValue::Int(eid.raw()) });
        },
        None => {},
    }
    let ghost w4 = if q.end_id is Some {
        and_join(w3, if fwd { "id <= :end_id"@ } else { "id >= :end_id"@ })
    } else {
        w3
    };
    let ghost p4 = match q.end_id {
        Some(eid) => p3.push((":end_id"@, SqlValueModel::Int(eid@))),
        None => p3,
    };
    proof {
        assert(wheres@ == w4);
        assert(params_model(params@) =~= p4);
    }
    match q.limit {
        Some(l) => {
            params.push(NamedParam { name: ":limit", value: SqlValue::Int(l) });
        },
        None => {},
    }
    let ghost p5 = match q.limit {
        Some(l) => p4.push((":limit"@, SqlValueModel::Int(l as int))),
        None => p4,
    };
    proof {
        assert(params_model(params@) =~= p5);
        assert(wheres@ == where_bounds(*q, w0));
        assert(params_model(params@) == params_bounds(*q, p0));
    }
}

/// Emits the conditions and parameters of the filter.
#[verifier::rlimit(100)]
fn emit_filters(q: &SearchQuery, wheres: &mut String, params: &mut Vec<NamedParam>)
    ensures
        final(wheres)@ == where_filters(*q, old(wheres)@),
        params_model(final(params)@) == params_filters(*q, params_model(old(params)@)),
{
    let ghost w0 = wheres@;
    let ghost p0 = params_model(params@);
    match &q.filter.command_line {
        Some(CommandLineSearch::Exact(e)) => {
            push_clause(wheres, "command_line = :command_line");
            params.push(NamedParam { name: ":command_line", value: SqlValue::Text(e.clone()) });
        },
        Some(CommandLineSearch::Prefix(pre)) => {
            push_clause(wheres, "command_line like :command_line escape '\\'");
            let pat = escape_like(pre.as_str()).concat("%");
            params.push(NamedParam { name: ":command_line", value: SqlValue::Text(pat) });
        },
        Some(CommandLineSearch::Substring(t)) => {
            push_clause(wheres, "command_line like :command_line escape '\\'");
            let mut pat = String::new();
            pat.append("%");
            pat.append(escape_like(t.as_str()).as_str());
            pat.append("%");
            params.push(NamedParam { name: ":command_line", value: SqlValue::Text(pat) });
        },
        None => {},
    }
    let ghost w1 = match q.filter.command_line {
        Some(CommandLineSearch::Exact(_)) => and_join(w0, "command_line = :command_line"@),
        Some(_) => and_join(w0, "command_line like :command_line escape '\\'"@),
        None => w0,
    };
    let ghost p1 = match &q.filter.command_line {
        Some(CommandLineSearch::Exact(e)) => p0.push((":command_line"@, SqlValueModel::Text(e@))),
        Some(CommandLineSearch::Prefix(pre)) => p0.push(
            (":command_line"@, SqlValueModel::Text(escape_like_model(pre@) + "%"@)),
        ),
        Some(CommandLineSearch::Substring(t)) => p0.push(
            (":command_line"@, SqlValueModel::Text("%"@ + escape_like_model(t@) + "%"@)),
        ),
        None => p0,
    };
    proof {
        assert(wheres@ == w1);
        assert(params_model(params@) =~= p1);
    }
    match &q.filter.not_command_line {
        Some(n) => {
            push_clause(wheres, "command_line != :not_cmd");
            params.push(NamedParam { name: ":not_cmd", value: SqlValue::Text(n.clone()) });
        },
        None => {},
    }
    let ghost w2 = if q.filter.not_command_line is Some {
        and_join(w1, "command_line != :not_cmd"@)
    } else {
        w1
    };
    let ghost p2 = match &q.filter.not_command_line {
        Some(n) => p1.push((":not_cmd"@, SqlValueModel::Text(n@))),
        None => p1,
    };
    proof {
        assert(wheres@ == w2);
        assert(params_model(params@) =~= p2);
    }
    match &q.filter.hostname {
        Some(h) => {
            push_clause(wheres, "hostname = :hostname");
            params.push(NamedParam { name: ":hostname", value: SqlValue::Text(h.clone()) });
        },
        None => {},
    }
    let ghost w3 = if q.filter.hostname is Some {
        and_join(w2, "hostname = :hostname"@)
    } else {
        w2
    };
    let ghost p3 = match &q.filter.hostname {
        Some(h) => p2.push((":hostname"@, SqlValueModel::Text(h@))),
        None => p2,
    };
    proof {
        assert(wheres@ == w3);
        assert(params_model(params@) =~= p3);
    }
    match &q.filter.cwd_exact {
        Some(c) => {
            push_clause(wheres, "cwd = :cwd");
            params.push(NamedParam { name: ":cwd", value: SqlValue::Text(c.clone()) });
        },
        None => {},
    }
    let ghost w4 = if q.filter.cwd_exact is Some {
        and_join(w3, "cwd = :cwd"@)
    } else {
        w3
    };
    let ghost p4 = match &q.filter.cwd_exact {
        Some(c) => p3.push((":cwd"@, SqlValueModel::Text(c@))),
        None => p3,
    };
    proof {
        assert(wheres@ == w4);
        assert(params_model(params@) =~= p4);
    }
    match &q.filter.cwd_prefix {
        Some(pre) => {
            push_clause(wheres, "cwd like :cwd_like escape '\\'");
            let pat = escape_like(pre.as_str()).concat("%");
            params.push(NamedParam { name: ":cwd_like", value: SqlValue::Text(pat) });
        },
        None => {},
    }
    let ghost w5 = if q.filter.cwd_prefix is Some {
        and_join(w4, "cwd like :cwd_like escape '\\'"@)
    } else {
        w4
    };
    let ghost p5 = match &q.filter.cwd_prefix {
        Some(pre) => p4.push((":cwd_like"@, SqlValueModel::Text(escape_like_model(pre@) + "%"@))),
        None => p4,
    };
    proof {
        assert(wheres@ == w5);
        assert(params_model(params@) =~= p5);
    }
    match q.filter.exit_successful {
        Some(true) => {
            push_clause(wheres, "exit_status = 0");
        },
        Some(false) => {
            push_clause(wheres, "exit_status != 0");
        },
        None => {},
    }
    let ghost w6 = match q.filter.exit_successful {
        Some(true) => and_join(w5, "exit_status = 0"@),
        Some(false) => and_join(w5, "exit_status != 0"@),
        None => w5,
    };
    proof {
        assert(wheres@ == w6);
        assert(wheres@ == where_filters(*q, w0));
        assert(params_model(params@) == params_filters(*q, p0));
    }
}

/// Lowers a search query to a statement text and its bound parameters.
///
/// The text is exactly [`sql_text`] of the query, and the parameters are
/// exactly [`sql_params`]: the conjunction of the present conditions with
/// direction-aware comparisons, ordered by identity in scan direction, and
/// every filter value passed as a bound parameter, never interpolated into
/// the text.
pub fn construct_query(q: &SearchQuery, select_expression: &str) -> (r: (String, Vec<NamedParam>))
    ensures
        r.0@ == sql_text(*q, select_expression@),
        params_model(r.1@) == sql_params(*q),
{
    let mut wheres = String::new();
    let mut params: Vec<NamedParam> = Vec::new();
    proof {
        assert(params_model(params@) =~= Seq::<(Seq<char>, SqlValueModel)>::empty());
    }
    emit_bounds(q, &mut wheres, &mut params);
    emit_filters(q, &mut wheres, &mut params);
    proof {
        assert(wheres@ == where_clauses(*q));
        assert(params_model(params@) == sql_params(*q));
    }
    let mut out = String::new();
    out.append("select ");
    out.append(select_expression);
    out.append(" from history where ");
    if wheres.as_str().is_empty() {
        out.append("true");
    } else {
        out.append(wheres.as_str());
    }
    out.append(" order by id ");
    match q.direction {
        SearchDirection::Forward => out.append("asc"),
        SearchDirection::Backward => out.append("desc"),
    }
    match q.limit {
        Some(_) => {
            out.append(" limit :limit");
        },
        None => {},
    }
    proof {
        assert(out@ =~= sql_text(*q, select_expression@));
    }
    (out, params)
}

} // verus!
