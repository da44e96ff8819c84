//! Route search: the query a client sends and the SQL it becomes.
use vstd::prelude::*;

use crate::route_info::RouteId;
use crate::text::{decimal, owned, push_decimal};
use crate::user::UserId;

verus! {

/// What a client searches routes by. Ids and caller are set by the server;
/// pages count from zero.
pub struct RouteSearchQuery {
    pub ids: Option<Vec<RouteId>>,
    pub caller_id: Option<UserId>,
    pub owner_id: Option<UserId>,
    pub page_offset: usize,
    pub page_size: Option<usize>,
}

impl RouteSearchQuery {
    /// The query that restricts nothing.
    pub fn empty() -> (q: RouteSearchQuery)
        ensures
            q.ids is None,
            q.caller_id is None,
            q.owner_id is None,
            q.page_offset == 0,
            q.page_size is None,
    {
        RouteSearchQuery { ids: None, caller_id: None, owner_id: None, page_offset: 0, page_size: None }
    }
}

/// A condition of a `WHERE` clause.
pub enum WhereCondition {
    /// `field = value`.
    Eq(&'static str, String),
    /// `field IN (values)`; false when there are no values.
    In(&'static str, Vec<String>),
    /// All of the conditions.
    And(Vec<WhereCondition>),
    /// Any of the conditions.
    Or(Vec<WhereCondition>),
}

/// The texts `parts` joined with `sep` between each two.
pub open spec fn join_seqs(parts: Seq<Seq<char>>, sep: Seq<char>) -> Seq<char>
    decreases parts.len(),
{
    if parts.len() == 0 {
        Seq::empty()
    } else if parts.len() == 1 {
        parts[0]
    } else {
        join_seqs(parts.drop_last(), sep) + sep + parts.last()
    }
}

/// The texts of `v`.
pub open spec fn string_views(v: Seq<String>) -> Seq<Seq<char>> {
    v.map_values(|s: String| s@)
}

/// The SQL text of condition `c`.
pub open spec fn cond_query(c: WhereCondition) -> Seq<char>
    decreases c,
{
    match c {
        WhereCondition::Eq(f, v) => f@ + " = "@ + v@,
        WhereCondition::In(f, vs) => if vs@.len() == 0 {
            "false"@
        } else {
            f@ + " IN ("@ + join_seqs(string_views(vs@), ","@) + ")"@
        },
        WhereCondition::And(cs) => if cs@.len() == 0 {
            Seq::empty()
        } else if cs@.len() == 1 {
            cond_query(cs@[0])
        } else {
            "("@ + group_query(cs@, " AND "@, cs@.len() as int) + ")"@
        },
        WhereCondition::Or(cs) => if cs@.len() == 0 {
            Seq::empty()
        } else if cs@.len() == 1 {
            cond_query(cs@[0])
        } else {
            "("@ + group_query(cs@, " OR "@, cs@.len() as int) + ")"@
        },
    }
}

/// The texts of the first `k` conditions of `cs`, joined with `sep`.
pub open spec fn group_query(cs: Seq<WhereCondition>, sep: Seq<char>, k: int) -> Seq<char>
    decreases cs, k,
{
    if k <= 0 || k > cs.len() {
        Seq::empty()
    } else if k == 1 {
        cond_query(cs[0])
    } else {
        group_query(cs, sep, k - 1) + sep + cond_query(cs[k - 1])
    }
}

fn join_strings(vs: &Vec<String>, sep: &str) -> (r: String)
    ensures
        r@ == join_seqs(string_views(vs@), sep@),
{
    let mut r = String::new();
    let mut i: usize = 0;
    while i < vs.len()
        invariant
            i <= vs@.len(),
            r@ == join_seqs(string_views(vs@.subrange(0, i as int)), sep@),
        decreases vs@.len() - i,
    {
        let ghost prev = string_views(vs@.subrange(0, i as int));
        if i > 0 {
            r.append(sep);
        }
        r.append(vs[i].as_str());
        i = i + 1;
        proof {
            let cur = string_views(vs@.subrange(0, i as int));
            assert(cur.drop_last() =~= prev);
            if i == 1 {
                assert(r@ =~= cur[0]);
            }
        }
    }
    assert(vs@.subrange(0, i as int) =~= vs@);
    r
}

impl WhereCondition {
    /// The SQL text of the condition.
    pub fn to_query(&self) -> (r: String)
        ensures
            r@ == cond_query(*self),
        decreases self,
    {
        match self {
            WhereCondition::Eq(field_name, value) => {
                let mut s = owned(field_name);
                s.append(" = ");
                s.append(value.as_str());
                s
            },
            WhereCondition::In(field_name, values) => {
                if values.len() == 0 {
                    owned("false")
                } else {
                    let mut s = owned(field_name);
                    s.append(" IN (");
                    let joined = join_strings(values, ",");
                    s.append(joined.as_str());
                    s.append(")");
                    s
                }
            },
            WhereCondition::And(values) => Self::group_to_query(values, " AND "),
            WhereCondition::Or(values) => Self::group_to_query(values, " OR "),
        }
    }

    fn group_to_query(values: &Vec<WhereCondition>, sep: &str) -> (r: String)
        ensures
            values@.len() == 0 ==> r@ == Seq::<char>::empty(),
            values@.len() == 1 ==> r@ == cond_query(values@[0]),
            values@.len() > 1 ==> r@ == "("@ + group_query(values@, sep@, values@.len() as int) + ")"@,
        decreases values,
    {
        let n = values.len();
        if n == 0 {
            String::new()
        } else if n == 1 {
            proof { assert(decreases_to!(values => values@[0])); }
            values[0].to_query()
        } else {
            let mut s = owned("(");
            let mut i: usize = 0;
            while i < n
                invariant
                    n == values@.len(),
                    n > 1,
                    i <= n,
                    s@ == "("@ + group_query(values@, sep@, i as int),
                decreases n - i,
            {
                if i > 0 {
                    s.append(sep);
                }
                proof { assert(decreases_to!(values => values@[i as int])); }
                let part = values[i].to_query();
                s.append(part.as_str());
                i = i + 1;
                proof {
                    if i == 1 {
                        assert(s@ =~= "("@ + group_query(values@, sep@, 1));
                    } else {
                        assert(s@ =~= "("@ + group_query(values@, sep@, i as int));
                    }
                }
            }
            s.append(")");
            s
        }
    }
}


/// The `ORDER BY` part of a query.
pub struct OrderBy {
    pub field_name: &'static str,
    pub descending: bool,
}

/// The SQL text of an ordering.
pub open spec fn order_query(o: OrderBy) -> Seq<char> {
    "`"@ + o.field_name@ + "` "@ + (if o.descending { "DESC"@ } else { ""@ })
}

impl OrderBy {
    /// The SQL text of the ordering.
    pub fn to_query(&self) -> (r: String)
        ensures
            r@ == order_query(*self),
    {
        let mut s = owned("`");
        s.append(self.field_name);
        s.append("` ");
        if self.descending {
            s.append("DESC");
        } else {
            s.append("");
        }
        s
    }
}

/// A `SELECT` over one table.
pub struct SearchQuery {
    pub table_name: &'static str,
    pub where_condition: Option<WhereCondition>,
    pub order_by: Option<OrderBy>,
    pub limit: Option<usize>,
    pub offset: Option<usize>,
}

/// The SQL text of `q`; a counting query selects `COUNT(*)` and leaves out
/// ordering, limit and offset.
pub open spec fn sql_text(q: SearchQuery, is_for_counting: bool) -> Seq<char> {
    let head = "SELECT "@ + (if is_for_counting { "COUNT(*)"@ } else { "*"@ }) + " FROM "@ + q.table_name@ + " "@;
    let where_part = match q.where_condition {
        Some(c) => "WHERE "@ + cond_query(c) + " "@,
        None => Seq::empty(),
    };
    let order_part = match q.order_by {
        Some(o) if !is_for_counting => "ORDER BY "@ + order_query(o) + " "@,
        _ => Seq::empty(),
    };
    let limit_part = match q.limit {
        Some(l) if !is_for_counting => "LIMIT "@ + decimal(l as nat) + " "@,
        _ => Seq::empty(),
    };
    let offset_part = match q.offset {
        Some(o) if !is_for_counting => "OFFSET "@ + decimal(o as nat) + " "@,
        _ => Seq::empty(),
    };
    head + where_part + order_part + limit_part + offset_part
}

/// The ordering, limit and offset parts of the listing text of `q`.
pub open spec fn paging_text(q: SearchQuery) -> Seq<char> {
    let order_part = match q.order_by {
        Some(o) => "ORDER BY "@ + order_query(o) + " "@,
        None => Seq::empty(),
    };
    let limit_part = match q.limit {
        Some(l) => "LIMIT "@ + decimal(l as nat) + " "@,
        None => Seq::empty(),
    };
    let offset_part = match q.offset {
        Some(o) => "OFFSET "@ + decimal(o as nat) + " "@,
        None => Seq::empty(),
    };
    order_part + limit_part + offset_part
}

/// The counting text and the listing text of a query agree: the count
/// starts with `SELECT COUNT(*)`, and the listing is the count with `*` in
/// place of `COUNT(*)`, followed by the ordering, limit and offset parts,
/// which the count never has.
#[verifier::spinoff_prover]
#[verifier::rlimit(60)]
pub proof fn count_and_listing_agree(q: SearchQuery)
    ensures
        sql_text(q, true).len() >= 15,
        sql_text(q, true).take(15) == "SELECT COUNT(*)"@,
        sql_text(q, false) == "SELECT *"@ + sql_text(q, true).skip(15) + paging_text(q),
{
    reveal_strlit("SELECT ");
    reveal_strlit("COUNT(*)");
    reveal_strlit("*");
    reveal_strlit("SELECT COUNT(*)");
    reveal_strlit("SELECT *");
    let where_part = match q.where_condition {
        Some(c) => "WHERE "@ + cond_query(c) + " "@,
        None => Seq::<char>::empty(),
    };
    let body = " FROM "@ + q.table_name@ + " "@ + where_part;
    assert("SELECT "@ + "COUNT(*)"@ =~= "SELECT COUNT(*)"@);
    assert("SELECT "@ + "*"@ =~= "SELECT *"@);
    assert(sql_text(q, true) =~= "SELECT COUNT(*)"@ + body) by {
        assert(sql_text(q, true) =~= "SELECT "@ + "COUNT(*)"@ + " FROM "@ + q.table_name@ + " "@ + where_part);
    }
    assert(sql_text(q, false) =~= "SELECT *"@ + body + paging_text(q)) by {
        assert(sql_text(q, false) =~= "SELECT "@ + "*"@ + " FROM "@ + q.table_name@ + " "@ + where_part + paging_text(q));
    }
    assert(("SELECT COUNT(*)"@ + body).skip(15) =~= body);
    assert(("SELECT COUNT(*)"@ + body).take(15) =~= "SELECT COUNT(*)"@);
}

/// `'x'`.
pub open spec fn quoted(x: Seq<char>) -> Seq<char> {
    "'"@ + x + "'"@
}

/// The texts `parts` each put in single quotes.
pub open spec fn quote_all(parts: Seq<Seq<char>>) -> Seq<Seq<char>> {
    parts.map_values(|x: Seq<char>| quoted(x))
}

/// The SQL text of the conditions of `parts` joined by `sep`: nothing for
/// none, the one condition alone, or all of them in parentheses.
pub open spec fn group_text(parts: Seq<Seq<char>>, sep: Seq<char>) -> Seq<char> {
    if parts.len() == 0 {
        Seq::empty()
    } else if parts.len() == 1 {
        parts[0]
    } else {
        "("@ + join_seqs(parts, sep) + ")"@
    }
}

/// The `WHERE` text of a route search: the route is public, or among `ids`,
/// or the caller's; and it belongs to `owner` when one is asked for.
pub open spec fn route_where_text(
    ids: Option<Seq<Seq<char>>>,
    caller: Option<Seq<char>>,
    owner: Option<Seq<char>>,
) -> Seq<char> {
    let public = "is_public"@ + " = "@ + "true"@;
    let by_ids = match ids {
        Some(v) => seq![
            if v.len() == 0 {
                "false"@
            } else {
                "id"@ + " IN ("@ + join_seqs(quote_all(v), ","@) + ")"@
            },
        ],
        None => Seq::empty(),
    };
    let by_caller = match caller {
        Some(c) => seq!["owner_id"@ + " = "@ + quoted(c)],
        None => Seq::empty(),
    };
    let visibility = group_text(seq![public] + by_ids + by_caller, " OR "@);
    let by_owner = match owner {
        Some(o) => seq!["owner_id"@ + " = "@ + quoted(o)],
        None => Seq::empty(),
    };
    group_text(seq![visibility] + by_owner, " AND "@)
}

/// Whether `c` is the condition `field = value`.
pub open spec fn is_eq(c: WhereCondition, field: Seq<char>, value: Seq<char>) -> bool {
    match c {
        WhereCondition::Eq(f, v) => f@ == field && v@ == value,
        _ => false,
    }
}

/// Whether `vs` are the visibility conditions of a route search: public,
/// then (when ids are asked for) among the quoted `ids`, then (when a caller
/// is known) the caller's.
pub open spec fn visibility_conditions(
    vs: Seq<WhereCondition>,
    ids: Option<Seq<Seq<char>>>,
    caller: Option<Seq<char>>,
) -> bool {
    &&& vs.len() == 1 + (if ids is Some { 1int } else { 0int }) + (if caller is Some { 1int } else { 0int })
    &&& is_eq(vs[0], "is_public"@, "true"@)
    &&& match ids {
        Some(v) => match vs[1] {
            WhereCondition::In(f, vals) => f@ == "id"@ && string_views(vals@) == quote_all(v),
            _ => false,
        },
        None => true,
    }
    &&& match caller {
        Some(c) => is_eq(vs[vs.len() - 1], "owner_id"@, quoted(c)),
        None => true,
    }
}

/// Whether `c` is the condition of a route search: all of [the visibility
/// conditions (any of them), and the owner's id when one is asked for].
pub open spec fn route_condition(
    c: WhereCondition,
    ids: Option<Seq<Seq<char>>>,
    caller: Option<Seq<char>>,
    owner: Option<Seq<char>>,
) -> bool {
    match c {
        WhereCondition::And(cs) => {
            &&& cs@.len() == (if owner is Some { 2int } else { 1int })
            &&& match cs@[0] {
                WhereCondition::Or(vs) => visibility_conditions(vs@, ids, caller),
                _ => false,
            }
            &&& match owner {
                Some(o) => is_eq(cs@[1], "owner_id"@, quoted(o)),
                None => true,
            }
        },
        _ => false,
    }
}

/// The text of an optional user id.
pub open spec fn user_id_view(u: Option<UserId>) -> Option<Seq<char>> {
    match u {
        Some(id) => Some(id@),
        None => None,
    }
}

/// The ids of a route search, as texts.
pub open spec fn route_id_views(ids: Option<Vec<RouteId>>) -> Option<Seq<Seq<char>>> {
    match ids {
        Some(v) => Some(v@.map_values(|id: RouteId| id@)),
        None => None,
    }
}

proof fn lemma_group_query_join(cs: Seq<WhereCondition>, sep: Seq<char>, k: int)
    requires
        0 < k <= cs.len(),
    ensures
        group_query(cs, sep, k) == join_seqs(Seq::new(k as nat, |i: int| cond_query(cs[i])), sep),
    decreases k,
{
    let parts = Seq::new(k as nat, |i: int| cond_query(cs[i]));
    if k > 1 {
        lemma_group_query_join(cs, sep, k - 1);
        assert(parts.drop_last() =~= Seq::new((k - 1) as nat, |i: int| cond_query(cs[i])));
    }
}

proof fn lemma_group_text(cs: Seq<WhereCondition>, sep: Seq<char>, parts: Seq<Seq<char>>)
    requires
        cs.len() == parts.len(),
        cs.len() > 1,
        forall|i: int| 0 <= i < cs.len() ==> cond_query(#[trigger] cs[i]) == parts[i],
    ensures
        "("@ + group_query(cs, sep, cs.len() as int) + ")"@ == group_text(parts, sep),
{
    lemma_group_query_join(cs, sep, cs.len() as int);
    assert(Seq::new(cs.len(), |i: int| cond_query(cs[i])) =~= parts);
}

fn quote(x: &str) -> (r: String)
    ensures
        r@ == quoted(x@),
{
    let mut s = owned("'");
    s.append(x);
    s.append("'");
    s
}

impl SearchQuery {
    /// The SQL text of the query (see [`sql_text`]).
    #[verifier::rlimit(40)]
    pub fn to_sql(&self, is_for_counting: bool) -> (r: String)
        ensures
            r@ == sql_text(*self, is_for_counting),
    {
        let mut query = owned("SELECT ");
        if is_for_counting {
            query.append("COUNT(*)");
        } else {
            query.append("*");
        }
        query.append(" FROM ");
        query.append(self.table_name);
        query.append(" ");
        match &self.where_condition {
            Some(cond) => {
                query.append("WHERE ");
                let c = cond.to_query();
                query.append(c.as_str());
                query.append(" ");
            },
            None => {},
        }
        if !is_for_counting {
            match &self.order_by {
                Some(order_by) => {
                    query.append("ORDER BY ");
                    let o = order_by.to_query();
                    query.append(o.as_str());
                    query.append(" ");
                },
                None => {},
            }
            match self.limit {
                Some(limit) => {
                    query.append("LIMIT ");
                    push_decimal(&mut query, limit as u64);
                    query.append(" ");
                },
                None => {},
            }
            match self.offset {
                Some(offset) => {
                    query.append("OFFSET ");
                    push_decimal(&mut query, offset as u64);
                    query.append(" ");
                },
                None => {},
            }
        }
        assert(query@ =~= sql_text(*self, is_for_counting));
        query
    }

    /// The query over table `routes` that a route search asks for: the
    /// conditions of [`route_where_text`], newest update first, and the
    /// requested page when a page size is given.
    pub fn from_route_search_query(q: RouteSearchQuery) -> (r: SearchQuery)
        requires
            q.page_size matches Some(size) ==> size * q.page_offset <= usize::MAX,
        ensures
            r.table_name@ == "routes"@,
            r.where_condition matches Some(c) && cond_query(c) == route_where_text(
                route_id_views(q.ids),
                user_id_view(q.caller_id),
                user_id_view(q.owner_id),
            ),
            r.where_condition matches Some(c) && route_condition(
                c,
                route_id_views(q.ids),
                user_id_view(q.caller_id),
                user_id_view(q.owner_id),
            ),
            r.order_by matches Some(o) && o.field_name@ == "updated_at"@ && o.descending,
            r.limit == q.page_size,
            r.offset == (match q.page_size { Some(size) => Some((size * q.page_offset) as usize), None => None }),
    {
        let ghost idv = route_id_views(q.ids);
        let ghost callerv = user_id_view(q.caller_id);
        let ghost ownerv = user_id_view(q.owner_id);
        let mut visibility: Vec<WhereCondition> = Vec::new();
        visibility.push(WhereCondition::Eq("is_public", owned("true")));
        let ghost by_ids: Seq<Seq<char>> = Seq::empty();
        match q.ids {
            Some(ids) => {
                let mut quoted_ids: Vec<String> = Vec::new();
                let mut i: usize = 0;
                while i < ids.len()
                    invariant
                        i <= ids@.len(),
                        quoted_ids@.len() == i,
                        string_views(quoted_ids@) == quote_all(ids@.subrange(0, i as int).map_values(|id: RouteId| id@)),
                    decreases ids@.len() - i,
                {
                    let ghost old_q = string_views(quoted_ids@);
                    let ghost old_e = quote_all(ids@.subrange(0, i as int).map_values(|id: RouteId| id@));
                    let qid = quote(ids[i].as_str());
                    quoted_ids.push(qid);
                    i = i + 1;
                    proof {
                        let e = quote_all(ids@.subrange(0, i as int).map_values(|id: RouteId| id@));
                        let v = string_views(quoted_ids@);
                        assert(v.len() == e.len());
                        assert forall|k: int| 0 <= k < v.len() implies v[k] == e[k] by {
                            if k < i - 1 {
                                assert(v[k] == old_q[k]);
                                assert(e[k] == old_e[k]);
                            }
                        }
                        assert(v =~= e);
                    }
                }
                assert(ids@.subrange(0, i as int) =~= ids@);
                proof {
                    let v = ids@.map_values(|id: RouteId| id@);
                    by_ids = seq![if v.len() == 0 { "false"@ } else { "id"@ + " IN ("@ + join_seqs(quote_all(v), ","@) + ")"@ }];
                }
                visibility.push(WhereCondition::In("id", quoted_ids));
            },
            None => {},
        }
        let ghost by_caller: Seq<Seq<char>> = Seq::empty();
        match q.caller_id {
            Some(caller_id) => {
                proof { by_caller = seq!["owner_id"@ + " = "@ + quoted(caller_id@)]; }
                visibility.push(WhereCondition::Eq("owner_id", quote(caller_id.as_str())));
            },
            None => {},
        }
        let ghost vis_parts = seq!["is_public"@ + " = "@ + "true"@] + by_ids + by_caller;
        assert(visibility@.len() == vis_parts.len());
        assert forall|i: int| 0 <= i < visibility@.len() implies cond_query(#[trigger] visibility@[i]) == vis_parts[i] by {
            if i == 0 {
            } else if i == 1 && by_ids.len() == 1 {
            } else {
            }
        }
        let ghost vis_text = group_text(vis_parts, " OR "@);
        proof {
            if visibility@.len() > 1 {
                lemma_group_text(visibility@, " OR "@, vis_parts);
            }
        }
        assert(visibility_conditions(visibility@, idv, callerv));
        let vis_cond = WhereCondition::Or(visibility);
        assert(cond_query(vis_cond) == vis_text);
        let mut conditions: Vec<WhereCondition> = Vec::new();
        conditions.push(vis_cond);
        let ghost by_owner: Seq<Seq<char>> = Seq::empty();
        match q.owner_id {
            Some(owner_id) => {
                proof { by_owner = seq!["owner_id"@ + " = "@ + quoted(owner_id@)]; }
                conditions.push(WhereCondition::Eq("owner_id", quote(owner_id.as_str())));
            },
            None => {},
        }
        let ghost all_parts = seq![vis_text] + by_owner;
        assert forall|i: int| 0 <= i < conditions@.len() implies cond_query(#[trigger] conditions@[i]) == all_parts[i] by {}
        proof {
            if conditions@.len() > 1 {
                lemma_group_text(conditions@, " AND "@, all_parts);
            }
        }
        assert(conditions@.len() == (if ownerv is Some { 2int } else { 1int }));
        let where_condition = WhereCondition::And(conditions);
        assert(route_condition(where_condition, idv, callerv, ownerv));
        assert(cond_query(where_condition) == route_where_text(idv, callerv, ownerv));
        let (limit, offset) = match q.page_size {
            Some(page_size) => (Some(page_size), Some(page_size * q.page_offset)),
            None => (None, None),
        };
        SearchQuery {
            table_name: "routes",
            where_condition: Some(where_condition),
            order_by: Some(OrderBy { field_name: "updated_at", descending: true }),
            limit,
            offset,
        }
    }
}

} // verus!
