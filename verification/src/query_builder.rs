//! The statement builder: a fluent accumulator of one operation's fragments
//! and the deterministic renderer that turns them into a single textual
//! statement.
//!
//! The builder holds the operation kind, the target `keyspace.table`, the
//! projected or assigned columns, the predicate fragments, the free-form
//! clauses, an optional ordering pair, and the trailing `USING` options. The
//! whole accumulated state is mirrored by [`QueryView`], and every method's
//! contract says exactly how it moves that view; [`build`](QueryBuilder::build)
//! returns precisely [`built_query`] of the view.

use vstd::prelude::*;

use crate::text::{int_text, join_str_slices, join_with, push_i64_dec, push_joined};

verus! {

/// The operation a builder renders. A terminal call may overwrite it:
/// the last write wins.
#[derive(Clone, Copy, PartialEq, Eq, Structural)]
pub enum Operations {
    Select,
    Insert,
    InsertIfNotExists,
    Update,
    Delete,
}

/// The direction of the single supported `ORDER BY` pair.
#[derive(Clone, Copy, PartialEq, Eq, Structural)]
pub enum OrderDirection {
    Asc,
    Desc,
}

/// One trailing option of the `USING ... AND ...` clause.
#[derive(Clone, Copy, PartialEq, Eq, Structural)]
pub enum InsertOptions {
    UsingTimestamp(i64),
    UsingTTL(i64),
}

/// The mathematical image of a builder: every accumulated fragment as plain
/// character sequences, in insertion order.
#[verifier::ext_equal]
pub ghost struct QueryView {
    pub operation: Operations,
    pub keyspace: Seq<char>,
    pub table: Seq<char>,
    pub columns: Seq<Seq<char>>,
    pub conditions: Seq<Seq<char>>,
    pub clauses: Seq<Seq<char>>,
    pub order: Option<(Seq<char>, OrderDirection)>,
    pub insert_options: Seq<InsertOptions>,
}

/// The statement builder. `columns` is overloaded by design: a projection
/// list under Select, pre-rendered `column = 'value'` assignments under
/// Update, unused otherwise.
pub struct QueryBuilder {
    operation: Operations,
    keyspace: String,
    table: String,
    columns: Vec<String>,
    conditions: Vec<String>,
    clauses: Vec<String>,
    order: Option<(String, OrderDirection)>,
    insert_options: Vec<InsertOptions>,
}

impl View for QueryBuilder {
    type V = QueryView;

    closed spec fn view(&self) -> QueryView {
        QueryView {
            operation: self.operation,
            keyspace: self.keyspace@,
            table: self.table@,
            columns: self.columns.deep_view(),
            conditions: self.conditions.deep_view(),
            clauses: self.clauses.deep_view(),
            order: match self.order {
                Some(o) => Some((o.0@, o.1)),
                None => None,
            },
            insert_options: self.insert_options@,
        }
    }
}

// ---------------------------------------------------------------------------
// Fragment shapes: what each fluent call appends, as character sequences.
// ---------------------------------------------------------------------------
/// `{column} {op} '{value}'` for a binary comparison operator.
pub open spec fn comparison_fragment(column: Seq<char>, op: Seq<char>, value: Seq<char>) -> Seq<
    char,
> {
    column + " "@ + op + " '"@ + value + "'"@
}

/// `{column} [NOT ]IN ({values joined by ", "})`.
pub open spec fn in_list_fragment(column: Seq<char>, keyword: Seq<char>, values: Seq<Seq<char>>) -> Seq<
    char,
> {
    column + keyword + join_with(values, ", "@) + ")"@
}

/// `{column} [NOT ]BETWEEN '{lower}' AND '{upper}'`.
pub open spec fn between_fragment(
    column: Seq<char>,
    keyword: Seq<char>,
    lower: Seq<char>,
    upper: Seq<char>,
) -> Seq<char> {
    column + keyword + lower + "' AND '"@ + upper + "'"@
}

/// A builder whose `conditions` carry one more fragment, all else unchanged.
pub open spec fn with_condition(b: QueryView, fragment: Seq<char>) -> QueryView {
    QueryView { conditions: b.conditions.push(fragment), ..b }
}

// ---------------------------------------------------------------------------
// The rendering algorithm, as a function of the view.
// ---------------------------------------------------------------------------
/// The verb that opens the statement.
pub open spec fn verb_text(op: Operations) -> Seq<char> {
    match op {
        Operations::Select => "SELECT"@,
        Operations::Insert => "INSERT INTO"@,
        Operations::InsertIfNotExists => "INSERT IF NOT EXISTS"@,
        Operations::Update => "UPDATE"@,
        Operations::Delete => "DELETE"@,
    }
}

/// The fully qualified `keyspace.table` target.
pub open spec fn full_table_name(b: QueryView) -> Seq<char> {
    b.keyspace + "."@ + b.table
}

/// Whether a clause is routed to the bulk-JSON insert path. The literal
/// prefix is the only discriminator, so a hand-written clause opening with
/// the same four characters is routed the same way.
pub open spec fn is_json_clause(s: Seq<char>) -> bool {
    s.len() >= 4 && s[0] == 'J' && s[1] == 'S' && s[2] == 'O' && s[3] == 'N'
}

/// The projection list: `*` when no column was named.
pub open spec fn projection_text(columns: Seq<Seq<char>>) -> Seq<char> {
    if columns.len() == 0 {
        "*"@
    } else {
        join_with(columns, ", "@)
    }
}

/// The JSON clause list that an insert head carries, when its first clause
/// is a JSON one; empty otherwise.
pub open spec fn json_clauses_text(b: QueryView) -> Seq<char> {
    if b.clauses.len() > 0 && is_json_clause(b.clauses[0]) {
        " "@ + join_with(b.clauses, " "@)
    } else {
        Seq::empty()
    }
}

/// The head of the statement: verb, projection and target, per operation.
/// A Delete never projects; an Insert head absorbs a leading JSON clause.
pub open spec fn head_text(b: QueryView) -> Seq<char> {
    match b.operation {
        Operations::Select => verb_text(b.operation) + " "@ + projection_text(b.columns)
            + " FROM "@ + full_table_name(b),
        Operations::Delete => verb_text(b.operation) + " FROM "@ + full_table_name(b),
        Operations::Insert => verb_text(b.operation) + " "@ + full_table_name(b)
            + json_clauses_text(b),
        Operations::InsertIfNotExists => verb_text(b.operation) + " "@ + full_table_name(b)
            + json_clauses_text(b),
        Operations::Update => verb_text(b.operation) + " "@ + full_table_name(b),
    }
}

/// ` SET {assignments}` for an Update with assignments; empty otherwise.
pub open spec fn set_text(b: QueryView) -> Seq<char> {
    if b.operation is Update && b.columns.len() > 0 {
        " SET "@ + join_with(b.columns, ", "@)
    } else {
        Seq::empty()
    }
}

/// ` WHERE {conditions joined by " AND "}` when any condition was added.
pub open spec fn where_text(b: QueryView) -> Seq<char> {
    if b.conditions.len() > 0 {
        " WHERE "@ + join_with(b.conditions, " AND "@)
    } else {
        Seq::empty()
    }
}

/// The keyword of an ordering direction.
pub open spec fn direction_text(d: OrderDirection) -> Seq<char> {
    match d {
        OrderDirection::Asc => "ASC"@,
        OrderDirection::Desc => "DESC"@,
    }
}

/// ` ORDER BY {column} {direction}` when an ordering pair was set.
pub open spec fn order_text(b: QueryView) -> Seq<char> {
    match b.order {
        Some(o) => " ORDER BY "@ + o.0 + " "@ + direction_text(o.1),
        None => Seq::empty(),
    }
}

/// The free-form clauses, appended verbatim after any ordering — unless the
/// first one is a JSON clause, which the insert head already consumed.
pub open spec fn trailing_clauses_text(b: QueryView) -> Seq<char> {
    if b.clauses.len() > 0 && !is_json_clause(b.clauses[0]) {
        " "@ + join_with(b.clauses, " "@)
    } else {
        Seq::empty()
    }
}

/// One `USING` option: `TIMESTAMP {ts}` or `TTL {ttl}`.
pub open spec fn option_text(o: InsertOptions) -> Seq<char> {
    match o {
        InsertOptions::UsingTimestamp(ts) => "TIMESTAMP "@ + int_text(ts as int),
        InsertOptions::UsingTTL(ttl) => "TTL "@ + int_text(ttl as int),
    }
}

/// The options laid end to end with ` AND ` between neighbours, in call order.
pub open spec fn options_join(opts: Seq<InsertOptions>) -> Seq<char>
    decreases opts.len(),
{
    if opts.len() == 0 {
        Seq::empty()
    } else if opts.len() == 1 {
        option_text(opts[0])
    } else {
        options_join(opts.drop_last()) + " AND "@ + option_text(opts.last())
    }
}

/// ` USING {options joined by " AND "}` when any option was added.
pub open spec fn using_text(b: QueryView) -> Seq<char> {
    if b.insert_options.len() > 0 {
        " USING "@ + options_join(b.insert_options)
    } else {
        Seq::empty()
    }
}

/// The whole rendered statement: head, then SET, WHERE, ORDER BY, the
/// free-form clauses, USING, and the closing `;` — in that fixed order.
pub open spec fn built_query(b: QueryView) -> Seq<char> {
    head_text(b) + set_text(b) + where_text(b) + order_text(b) + trailing_clauses_text(b)
        + using_text(b) + ";"@
}

// ---------------------------------------------------------------------------
// The fluent methods.
// ---------------------------------------------------------------------------
impl QueryBuilder {
    /// A fresh builder bound to one operation and one `keyspace.table`
    /// target, with nothing accumulated yet.
    pub fn new(operation: Operations, keyspace: &str, table: &str) -> (r: Self)
        ensures
            r@ == (QueryView {
                operation,
                keyspace: keyspace@,
                table: table@,
                columns: Seq::empty(),
                conditions: Seq::empty(),
                clauses: Seq::empty(),
                order: None,
                insert_options: Seq::empty(),
            }),
    {
        let r = QueryBuilder {
            operation,
            keyspace: keyspace.to_owned(),
            table: table.to_owned(),
            columns: Vec::new(),
            conditions: Vec::new(),
            clauses: Vec::new(),
            order: None,
            insert_options: Vec::new(),
        };
        proof {
            assert(r@.columns =~= Seq::<Seq<char>>::empty());
            assert(r@.conditions =~= Seq::<Seq<char>>::empty());
            assert(r@.clauses =~= Seq::<Seq<char>>::empty());
        }
        r
    }

    /// Replaces the projection list with the given column names, in order.
    pub fn select(self, columns: &[&str]) -> (r: Self)
        ensures
            r@ == (QueryView { columns: columns.deep_view(), ..self@ }),
    {
        let ghost cv: Seq<Seq<char>> = columns.deep_view();
        let mut cols: Vec<String> = Vec::new();
        let mut i: usize = 0;
        while i < columns.len()
            invariant
                i <= columns.len(),
                cv == columns.deep_view(),
                cv.len() == columns.len(),
                cols@.len() == i,
                forall|j: int| 0 <= j < i ==> cols@[j]@ == cv[j],
            decreases columns.len() - i,
        {
            cols.push(columns[i].to_owned());
            proof {
                assert(cv[i as int] == columns@[i as int]@);
            }
            i = i + 1;
        }
        proof {
            assert(cols.deep_view() =~= cv);
        }
        let mut b = self;
        b.columns = cols;
        b
    }

    /// Retags the builder as a Delete; everything accumulated stays.
    pub fn delete(self) -> (r: Self)
        ensures
            r@ == (QueryView { operation: Operations::Delete, ..self@ }),
    {
        let mut b = self;
        b.operation = Operations::Delete;
        b
    }

    /// Retags the builder as an Update and replaces the column list with one
    /// `{column} = '{value}'` assignment per pair, in the order given.
    pub fn update(self, values: &[(&str, &str)]) -> (r: Self)
        ensures
            r@ == (QueryView {
                operation: Operations::Update,
                columns: Seq::new(
                    values@.len(),
                    |i: int| comparison_fragment(values@[i].0@, "="@, values@[i].1@),
                ),
                ..self@
            }),
    {
        let ghost av: Seq<Seq<char>> = Seq::new(
            values@.len(),
            |i: int| comparison_fragment(values@[i].0@, "="@, values@[i].1@),
        );
        let mut cols: Vec<String> = Vec::new();
        let mut i: usize = 0;
        while i < values.len()
            invariant
                i <= values.len(),
                av == Seq::new(
                    values@.len(),
                    |j: int| comparison_fragment(values@[j].0@, "="@, values@[j].1@),
                ),
                av.len() == values.len(),
                cols@.len() == i,
                forall|j: int| 0 <= j < i ==> cols@[j]@ == av[j],
            decreases values.len() - i,
        {
            let pair = values[i];
            let frag = comparison_condition(pair.0, "=", pair.1);
            cols.push(frag);
            i = i + 1;
        }
        proof {
            assert(cols.deep_view() =~= av);
        }
        let mut b = self;
        b.operation = Operations::Update;
        b.columns = cols;
        b
    }

    /// Appends one pre-rendered predicate fragment, verbatim.
    pub fn where_condition(self, condition: &str) -> (r: Self)
        ensures
            r@ == with_condition(self@, condition@),
    {
        let mut b = self;
        b.conditions.push(condition.to_owned());
        proof {
            assert(b@.conditions =~= self@.conditions.push(condition@));
        }
        b
    }

    /// Appends the predicate `{column} = '{value}'`.
    pub fn eq(self, column: &str, value: &str) -> (r: Self)
        ensures
            r@ == with_condition(self@, comparison_fragment(column@, "="@, value@)),
    {
        let frag = comparison_condition(column, "=", value);
        self.push_condition(frag)
    }

    /// Appends the predicate `{column} != '{value}'`.
    pub fn neq(self, column: &str, value: &str) -> (r: Self)
        ensures
            r@ == with_condition(self@, comparison_fragment(column@, "!="@, value@)),
    {
        let frag = comparison_condition(column, "!=", value);
        self.push_condition(frag)
    }

    /// Appends the predicate `{column} > '{value}'`.
    pub fn gt(self, column: &str, value: &str) -> (r: Self)
        ensures
            r@ == with_condition(self@, comparison_fragment(column@, ">"@, value@)),
    {
        let frag = comparison_condition(column, ">", value);
        self.push_condition(frag)
    }

    /// Appends the predicate `{column} >= '{value}'`.
    pub fn gte(self, column: &str, value: &str) -> (r: Self)
        ensures
            r@ == with_condition(self@, comparison_fragment(column@, ">="@, value@)),
    {
        let frag = comparison_condition(column, ">=", value);
        self.push_condition(frag)
    }

    /// Appends the predicate `{column} < '{value}'`.
    pub fn lt(self, column: &str, value: &str) -> (r: Self)
        ensures
            r@ == with_condition(self@, comparison_fragment(column@, "<"@, value@)),
    {
        let frag = comparison_condition(column, "<", value);
        self.push_condition(frag)
    }

    /// Appends the predicate `{column} <= '{value}'`.
    pub fn lte(self, column: &str, value: &str) -> (r: Self)
        ensures
            r@ == with_condition(self@, comparison_fragment(column@, "<="@, value@)),
    {
        let frag = comparison_condition(column, "<=", value);
        self.push_condition(frag)
    }

    /// Appends the predicate `{column} LIKE '{pattern}'`.
    pub fn like(self, column: &str, pattern: &str) -> (r: Self)
        ensures
            r@ == with_condition(self@, comparison_fragment(column@, "LIKE"@, pattern@)),
    {
        let frag = comparison_condition(column, "LIKE", pattern);
        self.push_condition(frag)
    }

    /// Appends the predicate `{column} IN ({values joined by ", "})`,
    /// the values taken verbatim, unquoted.
    pub fn in_list(self, column: &str, values: &[&str]) -> (r: Self)
        ensures
            r@ == with_condition(
                self@,
                in_list_fragment(column@, " IN ("@, values.deep_view()),
            ),
    {
        let frag = list_condition(column, " IN (", values);
        self.push_condition(frag)
    }

    /// Appends the predicate `{column} NOT IN ({values joined by ", "})`.
    pub fn not_in_list(self, column: &str, values: &[&str]) -> (r: Self)
        ensures
            r@ == with_condition(
                self@,
                in_list_fragment(column@, " NOT IN ("@, values.deep_view()),
            ),
    {
        let frag = list_condition(column, " NOT IN (", values);
        self.push_condition(frag)
    }

    /// Appends the predicate `{column} BETWEEN '{lower}' AND '{upper}'`.
    pub fn between(self, column: &str, lower: &str, upper: &str) -> (r: Self)
        ensures
            r@ == with_condition(
                self@,
                between_fragment(column@, " BETWEEN '"@, lower@, upper@),
            ),
    {
        let frag = range_condition(column, " BETWEEN '", lower, upper);
        self.push_condition(frag)
    }

    /// Appends the predicate `{column} NOT BETWEEN '{lower}' AND '{upper}'`.
    pub fn not_between(self, column: &str, lower: &str, upper: &str) -> (r: Self)
        ensures
            r@ == with_condition(
                self@,
                between_fragment(column@, " NOT BETWEEN '"@, lower@, upper@),
            ),
    {
        let frag = range_condition(column, " NOT BETWEEN '", lower, upper);
        self.push_condition(frag)
    }

    /// Appends the predicate `{column} IS NULL`.
    pub fn is_null(self, column: &str) -> (r: Self)
        ensures
            r@ == with_condition(self@, column@ + " IS NULL"@),
    {
        let mut frag = column.to_owned();
        frag.append(" IS NULL");
        self.push_condition(frag)
    }

    /// Appends the predicate `{column} IS NOT NULL`.
    pub fn is_not_null(self, column: &str) -> (r: Self)
        ensures
            r@ == with_condition(self@, column@ + " IS NOT NULL"@),
    {
        let mut frag = column.to_owned();
        frag.append(" IS NOT NULL");
        self.push_condition(frag)
    }

    /// Appends one free-form clause, verbatim.
    pub fn clause(self, clause: &str) -> (r: Self)
        ensures
            r@ == (QueryView { clauses: self@.clauses.push(clause@), ..self@ }),
    {
        let mut b = self;
        b.clauses.push(clause.to_owned());
        proof {
            assert(b@.clauses =~= self@.clauses.push(clause@));
        }
        b
    }

    /// Sets the single `ORDER BY` pair, replacing any earlier one.
    pub fn order_by(self, column: &str, direction: OrderDirection) -> (r: Self)
        ensures
            r@ == (QueryView { order: Some((column@, direction)), ..self@ }),
    {
        let mut b = self;
        b.order = Some((column.to_owned(), direction));
        b
    }

    /// Appends one trailing `USING` option, in call order.
    pub fn insert_option(self, option: InsertOptions) -> (r: Self)
        ensures
            r@ == (QueryView { insert_options: self@.insert_options.push(option), ..self@ }),
    {
        let mut b = self;
        b.insert_options.push(option);
        b
    }

    /// Renders the accumulated state as one statement, exactly as
    /// [`built_query`] lays it out. Pure: the builder is untouched, and two
    /// builds of the same builder return identical text.
    /// Renders the accumulated state as one statement, exactly as
    /// [`built_query`] lays it out. Pure: the builder is untouched, and two
    /// builds of the same builder return identical text.
    pub fn build(&self) -> (r: String)
        ensures
            r@ == built_query(self@),
    {
        let mut q = self.render_head();
        self.push_set(&mut q);
        self.push_where(&mut q);
        self.push_order(&mut q);
        self.push_trailing_clauses(&mut q);
        self.push_using(&mut q);
        q.append(";");
        q
    }

    fn render_head(&self) -> (r: String)
        ensures
            r@ == head_text(self@),
    {
        let mut q = String::new();
        match self.operation {
            Operations::Select => {
                q.append("SELECT");
                q.append(" ");
                if self.columns.len() == 0 {
                    q.append("*");
                } else {
                    push_joined(&mut q, &self.columns, ", ");
                }
                q.append(" FROM ");
                self.push_full_table(&mut q);
            },
            Operations::Delete => {
                q.append("DELETE");
                q.append(" FROM ");
                self.push_full_table(&mut q);
            },
            Operations::Insert => {
                q.append("INSERT INTO");
                q.append(" ");
                self.push_full_table(&mut q);
                self.push_json_clauses(&mut q);
            },
            Operations::InsertIfNotExists => {
                q.append("INSERT IF NOT EXISTS");
                q.append(" ");
                self.push_full_table(&mut q);
                self.push_json_clauses(&mut q);
            },
            Operations::Update => {
                q.append("UPDATE");
                q.append(" ");
                self.push_full_table(&mut q);
            },
        }
        assert(q@ =~= head_text(self@));
        q
    }

    fn push_full_table(&self, q: &mut String)
        ensures
            final(q)@ == old(q)@ + full_table_name(self@),
    {
        q.append(self.keyspace.as_str());
        q.append(".");
        q.append(self.table.as_str());
        assert(q@ =~= old(q)@ + full_table_name(self@));
    }

    fn push_json_clauses(&self, q: &mut String)
        ensures
            final(q)@ == old(q)@ + json_clauses_text(self@),
    {
        if self.clauses.len() > 0 && has_json_prefix(&self.clauses[0]) {
            q.append(" ");
            push_joined(q, &self.clauses, " ");
            assert(q@ =~= old(q)@ + json_clauses_text(self@));
        } else {
            assert(q@ =~= old(q)@ + json_clauses_text(self@));
        }
    }

    fn push_set(&self, q: &mut String)
        ensures
            final(q)@ == old(q)@ + set_text(self@),
    {
        let is_update = match self.operation {
            Operations::Update => true,
            _ => false,
        };
        if is_update && self.columns.len() > 0 {
            q.append(" SET ");
            push_joined(q, &self.columns, ", ");
        }
        assert(q@ =~= old(q)@ + set_text(self@));
    }

    fn push_where(&self, q: &mut String)
        ensures
            final(q)@ == old(q)@ + where_text(self@),
    {
        if self.conditions.len() > 0 {
            q.append(" WHERE ");
            push_joined(q, &self.conditions, " AND ");
        }
        assert(q@ =~= old(q)@ + where_text(self@));
    }

    fn push_order(&self, q: &mut String)
        ensures
            final(q)@ == old(q)@ + order_text(self@),
    {
        if let Some(pair) = &self.order {
            q.append(" ORDER BY ");
            q.append(pair.0.as_str());
            q.append(" ");
            match pair.1 {
                OrderDirection::Asc => q.append("ASC"),
                OrderDirection::Desc => q.append("DESC"),
            }
        }
        assert(q@ =~= old(q)@ + order_text(self@));
    }

    fn push_trailing_clauses(&self, q: &mut String)
        ensures
            final(q)@ == old(q)@ + trailing_clauses_text(self@),
    {
        if self.clauses.len() > 0 && !has_json_prefix(&self.clauses[0]) {
            q.append(" ");
            push_joined(q, &self.clauses, " ");
        }
        assert(q@ =~= old(q)@ + trailing_clauses_text(self@));
    }

    fn push_using(&self, q: &mut String)
        ensures
            final(q)@ == old(q)@ + using_text(self@),
    {
        if self.insert_options.len() > 0 {
            q.append(" USING ");
            push_options_joined(q, &self.insert_options);
        }
        assert(q@ =~= old(q)@ + using_text(self@));
    }

    /// Retags the builder as an Insert, wraps the payload's JSON text in a
    /// `JSON '...'` clause, and renders the statement — the bulk path: one
    /// statement for the whole document array. The caller dispatches the
    /// returned text in a single session call.
    pub fn insert(self, json_body: &serde_json::Value) -> (r: String)
        ensures
            r@ == built_query(
                (QueryView {
                    operation: Operations::Insert,
                    clauses: self@.clauses.push(json_clause_text(json_text_of(*json_body))),
                    ..self@
                }),
            ),
    {
        let text = value_to_text(json_body);
        let mut clause = String::new();
        clause.append("JSON '");
        clause.append(text.as_str());
        clause.append("'");
        let mut b = self;
        b.operation = Operations::Insert;
        b.clauses.push(clause);
        proof {
            assert(b@.clauses =~= self@.clauses.push(
                json_clause_text(json_text_of(*json_body)),
            ));
        }
        b.build()
    }

    fn push_condition(self, fragment: String) -> (r: Self)
        ensures
            r@ == with_condition(self@, fragment@),
    {
        let mut b = self;
        b.conditions.push(fragment);
        proof {
            assert(b@.conditions =~= self@.conditions.push(fragment@));
        }
        b
    }
}

// ---------------------------------------------------------------------------
// Laws of the renderer.
// ---------------------------------------------------------------------------
/// A Select over a non-empty projection opens with the verb, the columns
/// joined by `, ` in insertion order, and the qualified target; the rest of
/// the statement follows after that head.
pub proof fn lemma_select_head(b: QueryView)
    requires
        b.operation is Select,
        b.columns.len() > 0,
    ensures
        head_text(b) == "SELECT"@ + " "@ + join_with(b.columns, ", "@) + " FROM "@
            + full_table_name(b),
        built_query(b).take(head_text(b).len() as int) == head_text(b),
{
    assert(built_query(b).take(head_text(b).len() as int) =~= head_text(b));
}

/// A Select over an empty projection shows the literal `*` in its place.
pub proof fn lemma_select_star(b: QueryView)
    requires
        b.operation is Select,
        b.columns.len() == 0,
    ensures
        head_text(b) == "SELECT"@ + " "@ + "*"@ + " FROM "@ + full_table_name(b),
        built_query(b).take(head_text(b).len() as int) == head_text(b),
{
    assert(built_query(b).take(head_text(b).len() as int) =~= head_text(b));
}

/// A Delete head carries no projection token at all, whatever `columns`
/// holds: the target follows the verb directly.
pub proof fn lemma_delete_head(b: QueryView)
    requires
        b.operation is Delete,
    ensures
        head_text(b) == "DELETE"@ + " FROM "@ + full_table_name(b),
        built_query(b).take(head_text(b).len() as int) == head_text(b),
{
    assert(built_query(b).take(head_text(b).len() as int) =~= head_text(b));
}

/// When any condition was added, the statement holds the conditions exactly
/// in insertion order, joined by ` AND `, after one ` WHERE ` marker that
/// stands between the assignment section and the ordering section.
pub proof fn lemma_where_clause(b: QueryView)
    requires
        b.conditions.len() > 0,
    ensures
        built_query(b) == head_text(b) + set_text(b) + (" WHERE "@ + join_with(
            b.conditions,
            " AND "@,
        )) + order_text(b) + trailing_clauses_text(b) + using_text(b) + ";"@,
{
}

/// When the ordering pair is set, the statement holds one ` ORDER BY `
/// section, after any WHERE section and before any trailing clauses and any
/// USING section.
pub proof fn lemma_order_by_clause(b: QueryView, column: Seq<char>, direction: OrderDirection)
    requires
        b.order == Some((column, direction)),
    ensures
        built_query(b) == head_text(b) + set_text(b) + where_text(b) + (" ORDER BY "@ + column
            + " "@ + direction_text(direction)) + trailing_clauses_text(b) + using_text(b)
            + ";"@,
{
}

/// Two accumulated options render as one ` USING ` section holding both,
/// joined by ` AND ` in call order.
pub proof fn lemma_two_insert_options(b: QueryView, first: InsertOptions, second: InsertOptions)
    requires
        b.insert_options == seq![first, second],
    ensures
        using_text(b) == " USING "@ + (option_text(first) + " AND "@ + option_text(second)),
{
    assert(b.insert_options.drop_last() =~= seq![first]);
    assert(b.insert_options.last() == second);
    assert(seq![first][0] == first);
    assert(options_join(seq![first]) == option_text(first));
    assert(options_join(b.insert_options) == options_join(seq![first]) + " AND "@ + option_text(
        second,
    ));
}

/// Rendering is a pure function of the accumulated state: two builds of one
/// unmutated builder return identical text.
pub proof fn lemma_build_idempotent(b: QueryView, first: Seq<char>, second: Seq<char>)
    requires
        first == built_query(b),
        second == built_query(b),
    ensures
        first == second,
{
}

/// A builder whose only clause is the JSON wrapping of a serialized payload
/// renders an Insert head that embeds the whole payload — one statement for
/// the whole batch — and routes nothing to the trailing clause section.
pub proof fn lemma_bulk_insert_head(b: QueryView, json: Seq<char>)
    requires
        b.operation is Insert,
        b.clauses.len() == 1,
        b.clauses[0] == json_clause_text(json),
    ensures
        is_json_clause(b.clauses[0]),
        head_text(b) == "INSERT INTO"@ + " "@ + full_table_name(b) + (" "@ + json_clause_text(
            json,
        )),
        trailing_clauses_text(b) == Seq::<char>::empty(),
{
    reveal_strlit("JSON '");
    assert(json_clause_text(json)[0] == 'J');
    assert(json_clause_text(json)[1] == 'S');
    assert(json_clause_text(json)[2] == 'O');
    assert(json_clause_text(json)[3] == 'N');
    assert(join_with(b.clauses, " "@) == b.clauses[0]);
}

// ---------------------------------------------------------------------------
// The bulk-JSON payload, carried through opaquely and serialized outside.
// ---------------------------------------------------------------------------
#[verifier::external_type_specification]
#[verifier::external_body]
pub struct ExValue(serde_json::Value);

/// The compact JSON text that serde_json renders a value as.
pub uninterp spec fn json_text_of(v: serde_json::Value) -> Seq<char>;

/// `JSON '{json}'`: how an insert wraps its serialized payload.
pub open spec fn json_clause_text(json: Seq<char>) -> Seq<char> {
    "JSON '"@ + json + "'"@
}

/// Relies on serde_json's `Display` for `Value` (through `to_string`): it
/// writes the value in the compact format, a function of the value alone.
#[verifier::external_body]
fn value_to_text(v: &serde_json::Value) -> (r: String)
    ensures
        r@ == json_text_of(*v),
{
    v.to_string()
}

/// Whether the clause text opens with the four characters of the JSON
/// discriminator.
fn has_json_prefix(s: &String) -> (r: bool)
    ensures
        r == is_json_clause(s@),
{
    let sl: &str = s.as_str();
    if sl.unicode_len() < 4 {
        return false;
    }
    sl.get_char(0) == 'J' && sl.get_char(1) == 'S' && sl.get_char(2) == 'O' && sl.get_char(3)
        == 'N'
}

/// Appends to `out` the rendered options joined by ` AND `.
fn push_options_joined(out: &mut String, opts: &Vec<InsertOptions>)
    ensures
        final(out)@ == old(out)@ + options_join(opts@),
{
    let ghost base: Seq<char> = out@;
    let ghost ov: Seq<InsertOptions> = opts@;
    let mut i: usize = 0;
    assert(base + options_join(ov.take(0)) =~= base);
    while i < opts.len()
        invariant
            i <= opts.len(),
            ov == opts@,
            out@ == base + options_join(ov.take(i as int)),
        decreases opts.len() - i,
    {
        if i > 0 {
            out.append(" AND ");
        }
        let o: InsertOptions = opts[i];
        match o {
            InsertOptions::UsingTimestamp(ts) => {
                out.append("TIMESTAMP ");
                push_i64_dec(out, ts);
            },
            InsertOptions::UsingTTL(ttl) => {
                out.append("TTL ");
                push_i64_dec(out, ttl);
            },
        }
        proof {
            if i > 0 {
                assert(ov.take(i + 1).drop_last() =~= ov.take(i as int));
            }
            assert(out@ =~= base + options_join(ov.take(i + 1)));
        }
        i = i + 1;
    }
    proof {
        assert(ov.take(opts.len() as int) =~= ov);
    }
}

/// `{column} {op} '{value}'`, freshly rendered.
fn comparison_condition(column: &str, op: &str, value: &str) -> (r: String)
    ensures
        r@ == comparison_fragment(column@, op@, value@),
{
    let mut s = column.to_owned();
    s.append(" ");
    s.append(op);
    s.append(" '");
    s.append(value);
    s.append("'");
    s
}

/// `{column}{keyword}{values joined by ", "})`, freshly rendered.
fn list_condition(column: &str, keyword: &str, values: &[&str]) -> (r: String)
    ensures
        r@ == in_list_fragment(column@, keyword@, values.deep_view()),
{
    let joined = join_str_slices(values, ", ");
    let mut s = column.to_owned();
    s.append(keyword);
    s.append(joined.as_str());
    s.append(")");
    s
}

/// `{column}{keyword}{lower}' AND '{upper}'`, freshly rendered.
fn range_condition(column: &str, keyword: &str, lower: &str, upper: &str) -> (r: String)
    ensures
        r@ == between_fragment(column@, keyword@, lower@, upper@),
{
    let mut s = column.to_owned();
    s.append(keyword);
    s.append(lower);
    s.append("' AND '");
    s.append(upper);
    s.append("'");
    s
}

} // verus!
