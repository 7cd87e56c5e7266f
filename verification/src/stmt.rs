//! Positional binding onto the store's statement builder.
//!
//! The store's prepared-statement value is opaque here; three named
//! quantities describe it: the SQL text it was created from, the ordered
//! list of arguments bound onto it so far, and whether it is still live —
//! its argument buffer present and sound. On a live statement every
//! `bind` appends exactly one argument and keeps it live, so the bind
//! sequence matches the placeholder sequence position for position; on a
//! statement whose buffer was taken or poisoned the store's `bind` is a
//! silent no-op, so nothing is promised of one, and every statement the
//! library itself builds is live. Executing the statement is an
//! asynchronous call against the store and stays outside this library.

use vstd::prelude::*;

use crate::sql::SqlPlan;
use crate::synth::FieldEnum;
use crate::values::FieldValue;

verus! {

/// A MySQL prepared statement that owns its SQL text. The carried sqlx
/// value is opaque to the proofs; callers outside the library reach it
/// through `inner`, to execute it or to take its arguments. Of a value
/// built outside the library nothing is known — in particular not that it
/// is live — so the binding contracts hold only of statements that arise
/// inside the library.
#[verifier::external_body]
pub struct MySqlQuery {
    pub inner: sqlx::query::Query<'static, sqlx::MySql, sqlx::mysql::MySqlArguments>,
}

/// The SQL text a statement was created from.
pub uninterp spec fn stmt_sql(q: MySqlQuery) -> Seq<char>;

/// The arguments bound onto a statement so far, in binding order.
pub uninterp spec fn stmt_args(q: MySqlQuery) -> Seq<FieldValue>;

/// True of a statement whose argument buffer is still present and sound:
/// the state a fresh statement starts in, and the only state in which the
/// store's `bind` is guaranteed to record a value. Taking the arguments
/// out, or a failed encode, ends it; no call of this library does either.
pub uninterp spec fn stmt_live(q: MySqlQuery) -> bool;

/// Relies on sqlx's `query` (with `AssertSqlSafe` for the owned text): the
/// returned statement carries exactly the given SQL text and an empty,
/// live argument buffer.
#[verifier::external_body]
fn stmt_new(sql: String) -> (q: MySqlQuery)
    ensures
        stmt_live(q),
        stmt_sql(q) == sql@,
        stmt_args(q) == Seq::<FieldValue>::empty(),
{
    MySqlQuery { inner: sqlx::query(sqlx::AssertSqlSafe(sql)) }
}

/// Relies on `Query::bind` for `String`: on a live statement encoding a
/// string never fails, so exactly one argument holding the given text is
/// appended and the statement stays live; the SQL text is unchanged.
#[verifier::external_body]
fn stmt_bind_text(q: MySqlQuery, v: String) -> (r: MySqlQuery)
    requires
        stmt_live(q),
    ensures
        stmt_live(r),
        stmt_sql(r) == stmt_sql(q),
        stmt_args(r) == stmt_args(q).push(FieldValue::Text(v)),
{
    MySqlQuery { inner: q.inner.bind(v) }
}

/// Relies on `Query::bind` for `i64`: on a live statement encoding a
/// signed integer never fails, so exactly one argument holding the given
/// value is appended and the statement stays live; the SQL text is
/// unchanged.
#[verifier::external_body]
fn stmt_bind_int(q: MySqlQuery, v: i64) -> (r: MySqlQuery)
    requires
        stmt_live(q),
    ensures
        stmt_live(r),
        stmt_sql(r) == stmt_sql(q),
        stmt_args(r) == stmt_args(q).push(FieldValue::Int(v)),
{
    MySqlQuery { inner: q.inner.bind(v) }
}

/// Relies on `Query::bind` for `bool`: on a live statement encoding a
/// truth value never fails, so exactly one argument holding the given
/// value is appended and the statement stays live; the SQL text is
/// unchanged.
#[verifier::external_body]
fn stmt_bind_bool(q: MySqlQuery, v: bool) -> (r: MySqlQuery)
    requires
        stmt_live(q),
    ensures
        stmt_live(r),
        stmt_sql(r) == stmt_sql(q),
        stmt_args(r) == stmt_args(q).push(FieldValue::Boolean(v)),
{
    MySqlQuery { inner: q.inner.bind(v) }
}

/// Appends one field value to the statement's positional arguments: the
/// single place where the heterogeneous value kinds are unified into one
/// call sequence.
pub fn bind_value(value: FieldValue, query: MySqlQuery) -> (r: MySqlQuery)
    requires
        stmt_live(query),
    ensures
        stmt_live(r),
        stmt_sql(r) == stmt_sql(query),
        stmt_args(r) == stmt_args(query).push(value),
{
    match value {
        FieldValue::Text(s) => stmt_bind_text(query, s),
        FieldValue::Int(i) => stmt_bind_int(query, i),
        FieldValue::Boolean(b) => stmt_bind_bool(query, b),
    }
}

impl FieldEnum {
    /// Appends this carrier's value to the statement's positional
    /// arguments.
    pub fn bind(self, query: MySqlQuery) -> (r: MySqlQuery)
        requires
            stmt_live(query),
        ensures
            stmt_live(r),
            stmt_sql(r) == stmt_sql(query),
            stmt_args(r) == stmt_args(query).push(self.value),
    {
        bind_value(self.value, query)
    }
}

/// Turns a plan into a ready statement: the plan's SQL text with every
/// planned value bound onto it, in the plan's order and nothing else, so
/// the number of bind calls equals the plan's bind-list length.
pub fn prepare(plan: &SqlPlan) -> (q: MySqlQuery)
    ensures
        stmt_live(q),
        stmt_sql(q) == plan.sql@,
        stmt_args(q) == plan.binds@,
{
    let mut q: MySqlQuery = stmt_new(plan.sql.clone());
    let n: usize = plan.binds.len();
    let mut i: usize = 0;
    while i < n
        invariant
            i <= n,
            n == plan.binds@.len(),
            stmt_live(q),
            stmt_sql(q) == plan.sql@,
            stmt_args(q) =~= plan.binds@.take(i as int),
        decreases n - i,
    {
        q = bind_value(plan.binds[i].clone(), q);
        proof {
            assert(stmt_args(q) =~= plan.binds@.take(i as int + 1));
        }
        i = i + 1;
    }
    proof {
        assert(plan.binds@.take(n as int) =~= plan.binds@);
    }
    q
}

} // verus!
