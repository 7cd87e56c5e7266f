//! SQL statement builders.
//!
//! From the effective field set and a record's current values the builders
//! assemble the exact `INSERT` and `UPDATE` statement text and the ordered
//! list of values to bind positionally: one value per generated `?`, in
//! the placeholders' order, followed by the caller's extra values (and,
//! for an update, the key's value last, for the `WHERE` clause's `?`).

use vstd::prelude::*;

use crate::names::snake_of;
use crate::schema::StructSchema;
use crate::synth::{
    spec_field_values,
    spec_find,
    lemma_find_first_match,
    lemma_find_none,
    lemma_find_props,
};
use crate::values::{FieldValue, Record};

verus! {

/// The character sequences of a list of strings, in order.
pub open spec fn views_of(ss: Seq<String>) -> Seq<Seq<char>> {
    Seq::new(ss.len(), |i: int| ss[i]@)
}

/// The items joined by single commas, with no leading or trailing comma.
pub open spec fn join_comma(items: Seq<Seq<char>>) -> Seq<char>
    decreases items.len(),
{
    if items.len() == 0 {
        Seq::<char>::empty()
    } else if items.len() == 1 {
        items[0]
    } else {
        join_comma(items.drop_last()) + ","@ + items.last()
    }
}

/// `n` positional placeholders joined by commas: one `?` per remaining
/// field.
pub open spec fn placeholders(n: nat) -> Seq<char>
    decreases n,
{
    if n == 0 {
        Seq::<char>::empty()
    } else if n == 1 {
        "?"@
    } else {
        placeholders((n - 1) as nat) + ",?"@
    }
}

/// The `SET` items: each remaining name followed by `=?`.
pub open spec fn set_items(keys: Seq<Seq<char>>) -> Seq<Seq<char>> {
    Seq::new(keys.len(), |i: int| keys[i] + "=?"@)
}

/// The caller's extra positional values, as text values, in argument
/// order.
pub open spec fn text_values(extras: Seq<String>) -> Seq<FieldValue> {
    Seq::new(extras.len(), |i: int| FieldValue::Text(extras[i]))
}

/// The table the statement addresses: the caller's custom name, or the
/// type name converted to snake_case.
pub open spec fn spec_table_name(s: StructSchema, custom: Option<&str>) -> Seq<char> {
    match custom {
        Some(t) => t@,
        None => snake_of(s.struct_name@),
    }
}

/// The exact text of a generated insert statement.
pub open spec fn insert_sql_text(
    db: Seq<char>,
    table: Seq<char>,
    keys: Seq<Seq<char>>,
    extra_column: Seq<char>,
    extra_statement: Seq<char>,
) -> Seq<char> {
    "INSERT INTO "@ + db + "."@ + table + " ("@ + join_comma(keys) + extra_column + ") VALUE ("@
        + placeholders(keys.len()) + extra_statement + ");"@
}

/// The exact text of a generated update statement; `key_name` is the
/// primary key's exposed name, whose `?` is the statement's last.
pub open spec fn update_sql_text(
    db: Seq<char>,
    table: Seq<char>,
    keys: Seq<Seq<char>>,
    extra_column: Seq<char>,
    key_name: Seq<char>,
) -> Seq<char> {
    "UPDATE "@ + db + "."@ + table + " SET "@ + join_comma(set_items(keys)) + extra_column
        + " WHERE "@ + key_name + "=?;"@
}

/// A runtime builder failure: the caller named a primary-key column that
/// the effective field set does not expose.
#[derive(Debug)]
pub enum SqlBuildError {
    ColumnNotFound(String),
}

/// One statement ready to run: the exact SQL text and the values to bind,
/// in placeholder order.
#[derive(Debug)]
pub struct SqlPlan {
    pub sql: String,
    pub binds: Vec<FieldValue>,
}

/// Joins the given names with commas.
fn join_keys(keys: &Vec<String>) -> (r: String)
    ensures
        r@ == join_comma(views_of(keys@)),
{
    let mut r = String::new();
    let n: usize = keys.len();
    let mut i: usize = 0;
    while i < n
        invariant
            i <= n,
            n == keys@.len(),
            r@ == join_comma(views_of(keys@).take(i as int)),
        decreases n - i,
    {
        proof {
            assert(views_of(keys@).take(i as int + 1).drop_last() =~= views_of(keys@).take(
                i as int,
            ));
            assert(views_of(keys@).take(i as int + 1).last() == keys@[i as int]@);
        }
        if i != 0 {
            r.append(",");
        }
        r.append(keys[i].as_str());
        proof {
            assert(r@ =~= join_comma(views_of(keys@).take(i as int + 1)));
        }
        i = i + 1;
    }
    proof {
        assert(views_of(keys@).take(n as int) =~= views_of(keys@));
    }
    r
}

/// Builds `n` comma-joined positional placeholders.
fn placeholder_list(n: usize) -> (r: String)
    ensures
        r@ == placeholders(n as nat),
{
    let mut r = String::new();
    let mut i: usize = 0;
    while i < n
        invariant
            i <= n,
            r@ == placeholders(i as nat),
        decreases n - i,
    {
        if i == 0 {
            r.append("?");
        } else {
            r.append(",?");
        }
        i = i + 1;
    }
    r
}

/// Builds the comma-joined `name=?` list of an update's `SET` clause.
fn set_list(keys: &Vec<String>) -> (r: String)
    ensures
        r@ == join_comma(set_items(views_of(keys@))),
{
    let mut r = String::new();
    let n: usize = keys.len();
    let mut i: usize = 0;
    while i < n
        invariant
            i <= n,
            n == keys@.len(),
            r@ == join_comma(set_items(views_of(keys@).take(i as int))),
        decreases n - i,
    {
        proof {
            assert(set_items(views_of(keys@).take(i as int + 1)).drop_last() =~= set_items(
                views_of(keys@).take(i as int),
            ));
            assert(set_items(views_of(keys@).take(i as int + 1)).last() == keys@[i as int]@
                + "=?"@);
        }
        if i != 0 {
            r.append(",");
        }
        r.append(keys[i].as_str());
        r.append("=?");
        proof {
            assert(r@ =~= join_comma(set_items(views_of(keys@).take(i as int + 1))));
        }
        i = i + 1;
    }
    proof {
        assert(set_items(views_of(keys@).take(n as int)) =~= set_items(views_of(keys@)));
    }
    r
}

impl StructSchema {
    /// The current values of the effective fields, in field-set order.
    fn field_values(&self, record: &Record) -> (r: Vec<FieldValue>)
        requires
            self.covers(record.values@),
        ensures
            r@ == spec_field_values(*self, record.values@),
    {
        let mut r: Vec<FieldValue> = Vec::new();
        let n: usize = self.fields.len();
        let mut i: usize = 0;
        while i < n
            invariant
                self.covers(record.values@),
                i <= n,
                n == self.fields@.len(),
                r@ =~= spec_field_values(*self, record.values@).take(i as int),
            decreases n - i,
        {
            let idx: usize = self.fields[i].index;
            r.push(record.values[idx].clone());
            proof {
                assert(r@ =~= spec_field_values(*self, record.values@).take(i as int + 1));
            }
            i = i + 1;
        }
        proof {
            assert(spec_field_values(*self, record.values@).take(n as int) =~= spec_field_values(
                *self,
                record.values@,
            ));
        }
        r
    }

    /// The position of the first effective field exposing the given name.
    fn find_position(&self, name: &str) -> (r: Option<usize>)
        ensures
            (r matches Some(i) ==> ({
                &&& i < self.fields@.len()
                &&& self.fields@[i as int].exposed_name@ == name@
                &&& spec_find(self.fields@, name@) == Some(i as int)
            })),
            (r is None ==> spec_find(self.fields@, name@) is None),
    {
        let want: String = name.to_owned();
        let n: usize = self.fields.len();
        let mut i: usize = 0;
        while i < n
            invariant
                i <= n,
                n == self.fields@.len(),
                want@ == name@,
                forall|k: int|
                    0 <= k < i ==> (#[trigger] self.fields@[k]).exposed_name@ != name@,
            decreases n - i,
        {
            if self.fields[i].exposed_name == want {
                proof {
                    lemma_find_first_match(self.fields@, name@, i as int);
                }
                return Some(i);
            }
            i = i + 1;
        }
        proof {
            lemma_find_none(self.fields@, name@);
        }
        None
    }

    /// Assembles an insert statement and its bind list. When a primary-key
    /// name is given, that column and its paired value leave the generated
    /// lists together (the key is absent and never bound) and the other
    /// columns keep their order; a name the
    /// field set does not expose fails with `ColumnNotFound`. The caller's
    /// extra column and placeholder fragments are appended verbatim, and
    /// the extra values follow the field values in the bind list.
    pub fn insert_plan(
        &self,
        record: &Record,
        primary_key: Option<&str>,
        custom_table_name: Option<&str>,
        extra_column: &str,
        extra_statement: &str,
        extra_values: &Vec<String>,
        db_name: &str,
    ) -> (r: Result<SqlPlan, SqlBuildError>)
        requires
            self.covers(record.values@),
        ensures
            (r matches Ok(plan) ==> (match primary_key {
                None => ({
                    &&& plan.sql@ == insert_sql_text(
                        db_name@,
                        spec_table_name(*self, custom_table_name),
                        self.spec_field_names(),
                        extra_column@,
                        extra_statement@,
                    )
                    &&& plan.binds@ == spec_field_values(*self, record.values@) + text_values(
                        extra_values@,
                    )
                }),
                Some(pk) => ({
                    &&& spec_find(self.fields@, pk@) matches Some(j)
                    &&& plan.sql@ == insert_sql_text(
                        db_name@,
                        spec_table_name(*self, custom_table_name),
                        self.spec_field_names().remove(spec_find(self.fields@, pk@)->0),
                        extra_column@,
                        extra_statement@,
                    )
                    &&& plan.binds@ == spec_field_values(*self, record.values@).remove(
                        spec_find(self.fields@, pk@)->0,
                    ) + text_values(extra_values@)
                }),
            })),
            (r matches Err(e) ==> (primary_key matches Some(pk) && ({
                &&& spec_find(self.fields@, pk@) is None
                &&& e matches SqlBuildError::ColumnNotFound(m) && m@ == pk@
            }))),
    {
        let tbname: String = match custom_table_name {
            Some(s) => s.to_owned(),
            None => self.get_struct_name_snake(),
        };
        let mut keys: Vec<String> = self.get_field_names();
        let mut vals: Vec<FieldValue> = self.field_values(record);
        proof {
            assert(views_of(keys@) =~= self.spec_field_names());
        }
        match primary_key {
            Some(pk) => {
                match self.find_position(pk) {
                    Some(position) => {
                        let _removed_key = keys.remove(position);
                        let _removed_val = vals.remove(position);
                        proof {
                            assert(views_of(keys@) =~= self.spec_field_names().remove(
                                position as int,
                            ));
                        }
                    },
                    None => {
                        return Err(SqlBuildError::ColumnNotFound(pk.to_owned()));
                    },
                }
            },
            None => {},
        }
        let mut sql: String = "INSERT INTO ".to_owned();
        sql.append(db_name);
        sql.append(".");
        sql.append(tbname.as_str());
        sql.append(" (");
        let joined = join_keys(&keys);
        sql.append(joined.as_str());
        sql.append(extra_column);
        sql.append(") VALUE (");
        let marks = placeholder_list(keys.len());
        sql.append(marks.as_str());
        sql.append(extra_statement);
        sql.append(");");
        let mut binds: Vec<FieldValue> = vals;
        let ghost base = binds@;
        let n_extra: usize = extra_values.len();
        let mut i: usize = 0;
        while i < n_extra
            invariant
                i <= n_extra,
                n_extra == extra_values@.len(),
                binds@ =~= base + text_values(extra_values@.take(i as int)),
            decreases n_extra - i,
        {
            binds.push(FieldValue::Text(extra_values[i].clone()));
            proof {
                assert(binds@ =~= base + text_values(extra_values@.take(i as int + 1)));
            }
            i = i + 1;
        }
        proof {
            assert(text_values(extra_values@.take(n_extra as int)) =~= text_values(extra_values@));
        }
        Ok(SqlPlan { sql, binds })
    }

    /// Assembles an update statement and its bind list. The primary key
    /// must be an exposed field name — an absent name fails with
    /// `ColumnNotFound` — and its column leaves the `SET` list for the
    /// `WHERE` clause instead, the other columns keeping their order; its
    /// value is bound last, after the remaining field values and the
    /// caller's extra values.
    pub fn update_plan(
        &self,
        record: &Record,
        primary_key: &str,
        custom_table_name: Option<&str>,
        extra_column: &str,
        extra_values: &Vec<String>,
        db_name: &str,
    ) -> (r: Result<SqlPlan, SqlBuildError>)
        requires
            self.covers(record.values@),
        ensures
            (r matches Ok(plan) ==> ({
                &&& spec_find(self.fields@, primary_key@) matches Some(j)
                &&& plan.sql@ == update_sql_text(
                    db_name@,
                    spec_table_name(*self, custom_table_name),
                    self.spec_field_names().remove(spec_find(self.fields@, primary_key@)->0),
                    extra_column@,
                    self.spec_field_names()[spec_find(self.fields@, primary_key@)->0],
                )
                &&& plan.binds@ == spec_field_values(*self, record.values@).remove(
                    spec_find(self.fields@, primary_key@)->0,
                ) + text_values(extra_values@) + seq![
                    spec_field_values(*self, record.values@)[spec_find(
                        self.fields@,
                        primary_key@,
                    )->0],
                ]
            })),
            (r matches Err(e) ==> ({
                &&& spec_find(self.fields@, primary_key@) is None
                &&& e matches SqlBuildError::ColumnNotFound(m) && m@ == primary_key@
            })),
    {
        let tbname: String = match custom_table_name {
            Some(s) => s.to_owned(),
            None => self.get_struct_name_snake(),
        };
        let mut keys: Vec<String> = self.get_field_names();
        let mut vals: Vec<FieldValue> = self.field_values(record);
        proof {
            assert(views_of(keys@) =~= self.spec_field_names());
        }
        let position: usize = match self.find_position(primary_key) {
            Some(position) => position,
            None => {
                return Err(SqlBuildError::ColumnNotFound(primary_key.to_owned()));
            },
        };
        let removed_key: String = keys.remove(position);
        let removed_val: FieldValue = vals.remove(position);
        proof {
            assert(views_of(keys@) =~= self.spec_field_names().remove(position as int));
            assert(removed_key@ == self.spec_field_names()[position as int]);
        }
        let mut sql: String = "UPDATE ".to_owned();
        sql.append(db_name);
        sql.append(".");
        sql.append(tbname.as_str());
        sql.append(" SET ");
        let set_part = set_list(&keys);
        sql.append(set_part.as_str());
        sql.append(extra_column);
        sql.append(" WHERE ");
        sql.append(removed_key.as_str());
        sql.append("=?;");
        let mut binds: Vec<FieldValue> = vals;
        let ghost base = binds@;
        let n_extra: usize = extra_values.len();
        let mut i: usize = 0;
        while i < n_extra
            invariant
                i <= n_extra,
                n_extra == extra_values@.len(),
                binds@ =~= base + text_values(extra_values@.take(i as int)),
            decreases n_extra - i,
        {
            binds.push(FieldValue::Text(extra_values[i].clone()));
            proof {
                assert(binds@ =~= base + text_values(extra_values@.take(i as int + 1)));
            }
            i = i + 1;
        }
        proof {
            assert(text_values(extra_values@.take(n_extra as int)) =~= text_values(extra_values@));
        }
        binds.push(removed_val);
        proof {
            assert(binds@ =~= base + text_values(extra_values@) + seq![
                spec_field_values(*self, record.values@)[position as int],
            ]);
        }
        Ok(SqlPlan { sql, binds })
    }
}

/// How often a character occurs in a sequence.
pub open spec fn count_char(s: Seq<char>, c: char) -> int
    decreases s.len(),
{
    if s.len() == 0 {
        0
    } else {
        count_char(s.drop_last(), c) + (if s.last() == c {
            1int
        } else {
            0int
        })
    }
}

/// Occurrences add up over concatenation.
pub proof fn lemma_count_char_concat(a: Seq<char>, b: Seq<char>, c: char)
    ensures
        count_char(a + b, c) == count_char(a, c) + count_char(b, c),
    decreases b.len(),
{
    if b.len() == 0 {
        assert(a + b =~= a);
    } else {
        assert((a + b).drop_last() =~= a + b.drop_last());
        assert((a + b).last() == b.last());
        lemma_count_char_concat(a, b.drop_last(), c);
    }
}

/// The generated placeholder list holds exactly one `?` per remaining
/// field.
pub proof fn lemma_placeholder_count(n: nat)
    ensures
        count_char(placeholders(n), '?') == n,
    decreases n,
{
    reveal_strlit("?");
    reveal_strlit(",?");
    if n == 0 {
    } else if n == 1 {
        assert("?"@.drop_last() =~= Seq::<char>::empty());
        assert(count_char(Seq::<char>::empty(), '?') == 0);
        assert(count_char("?"@, '?') == 1);
    } else {
        lemma_placeholder_count((n - 1) as nat);
        lemma_count_char_concat(placeholders((n - 1) as nat), ",?"@, '?');
        assert(",?"@.drop_last() =~= seq![',']);
        assert(seq![','].drop_last() =~= Seq::<char>::empty());
        assert(count_char(Seq::<char>::empty(), '?') == 0);
        assert(count_char(seq![','], '?') == 0);
        assert(count_char(",?"@, '?') == 1);
    }
}

/// Law: binding is positional, so for any insert the number of generated
/// `?` placeholders plus the `?` count of the caller's placeholder
/// fragment equals the length of the bind list — the number of bind calls
/// a prepared statement receives — whenever the caller supplies one extra
/// value per `?` of the fragment, as the builders' contract asks.
pub proof fn lemma_insert_binding_order(
    keys: Seq<Seq<char>>,
    vals: Seq<FieldValue>,
    extras: Seq<String>,
    extra_statement: Seq<char>,
)
    requires
        vals.len() == keys.len(),
        count_char(extra_statement, '?') == extras.len(),
    ensures
        count_char(placeholders(keys.len()) + extra_statement, '?') == (vals + text_values(
            extras,
        )).len(),
{
    lemma_placeholder_count(keys.len());
    lemma_count_char_concat(placeholders(keys.len()), extra_statement, '?');
}

/// Law: an insert given a primary-key name omits that column from the
/// generated lists — no remaining column bears the key's name, the other
/// columns keep their order, and each remaining bind is the value of the
/// field named at the same position — provided no two fields expose one
/// name.
pub proof fn lemma_insert_omits_primary_key(s: StructSchema, rec: Seq<FieldValue>, pk: Seq<char>)
    requires
        s.distinct_names(),
        spec_find(s.fields@, pk) is Some,
    ensures
        ({
            let j = spec_find(s.fields@, pk)->0;
            let names = s.spec_field_names();
            let vals = spec_field_values(s, rec);
            &&& names.remove(j).len() == names.len() - 1
            &&& vals.remove(j).len() == vals.len() - 1
            &&& forall|k: int|
                0 <= k < names.remove(j).len() ==> #[trigger] names.remove(j)[k] != pk
            &&& forall|k: int|
                0 <= k < j ==> #[trigger] names.remove(j)[k] == names[k] && vals.remove(j)[k]
                    == vals[k]
            &&& forall|k: int|
                j <= k < names.remove(j).len() ==> #[trigger] names.remove(j)[k] == names[k + 1]
                    && vals.remove(j)[k] == vals[k + 1]
        }),
{
    lemma_find_props(s.fields@, pk);
}

/// Law: on a successful update the key's exposed name is the one searched
/// for, its value — the record's live value of that field — is the last
/// bound parameter, and the statement text ends with the `WHERE` clause
/// naming the key, whose `?` is the statement's last. (That an absent key
/// name yields `ColumnNotFound`, and nothing else does, is stated by
/// `update_plan` itself.)
pub proof fn lemma_update_key_is_last(
    s: StructSchema,
    rec: Seq<FieldValue>,
    pk: Seq<char>,
    extras: Seq<String>,
    db: Seq<char>,
    table: Seq<char>,
    extra_column: Seq<char>,
)
    requires
        spec_find(s.fields@, pk) is Some,
    ensures
        ({
            let j = spec_find(s.fields@, pk)->0;
            let binds = spec_field_values(s, rec).remove(j) + text_values(extras) + seq![
                spec_field_values(s, rec)[j],
            ];
            &&& s.spec_field_names()[j] == pk
            &&& binds.len() > 0
            &&& binds.last() == rec[s.fields@[j].index as int]
            &&& update_sql_text(db, table, s.spec_field_names().remove(j), extra_column, pk) == (
            "UPDATE "@ + db + "."@ + table + " SET "@ + join_comma(
                set_items(s.spec_field_names().remove(j)),
            ) + extra_column) + (" WHERE "@ + pk + "=?;"@)
        }),
{
    lemma_find_props(s.fields@, pk);
    let j = spec_find(s.fields@, pk)->0;
    assert(update_sql_text(db, table, s.spec_field_names().remove(j), extra_column, pk) =~= (
    "UPDATE "@ + db + "."@ + table + " SET "@ + join_comma(
        set_items(s.spec_field_names().remove(j)),
    ) + extra_column) + (" WHERE "@ + pk + "=?;"@));
}

} // verus!
