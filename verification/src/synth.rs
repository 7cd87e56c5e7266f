//! Generated accessors.
//!
//! Every accessor is a pure, single-pass function of the schema and of the
//! record's current field values: the type's name and its snake_case form,
//! the ordered exposed names, the ordered value snapshots, and lookup of
//! one snapshot by exposed name.

use vstd::prelude::*;

use crate::names::{snake_of, to_snake_case};
use crate::schema::{FieldSpec, StructSchema};
use crate::values::{FieldValue, Record};

verus! {

/// One field's identity together with the owned snapshot of its value,
/// taken from a record instance at the instant of construction.
#[derive(Debug)]
pub struct FieldEnum {
    pub field: FieldSpec,
    pub value: FieldValue,
}

impl Clone for FieldEnum {
    fn clone(&self) -> (r: Self)
        ensures
            r == *self,
    {
        FieldEnum { field: self.field.clone(), value: self.value.clone() }
    }
}

impl PartialEq for FieldEnum {
    fn eq(&self, other: &Self) -> (r: bool) {
        self.field.original_name == other.field.original_name
            && self.field.exposed_name == other.field.exposed_name && self.field.ty
            == other.field.ty && self.field.index == other.field.index && self.value == other.value
    }
}

impl vstd::std_specs::cmp::PartialEqSpecImpl for FieldEnum {
    open spec fn obeys_eq_spec() -> bool {
        true
    }

    open spec fn eq_spec(&self, other: &Self) -> bool {
        &&& self.field.original_name@ == other.field.original_name@
        &&& self.field.exposed_name@ == other.field.exposed_name@
        &&& self.field.ty == other.field.ty
        &&& self.field.index == other.field.index
        &&& crate::values::field_value_eq(self.value, other.value)
    }
}

/// The ordered value snapshots the value accessor takes from a record: the
/// record's current value of each effective field, in field-set order.
pub open spec fn spec_field_values(s: StructSchema, rec: Seq<FieldValue>) -> Seq<FieldValue> {
    Seq::new(s.fields@.len(), |i: int| rec[s.fields@[i].index as int])
}

/// The ordered carriers the value accessor yields: each effective field's
/// identity paired with its current value.
pub open spec fn spec_field_enums(s: StructSchema, rec: Seq<FieldValue>) -> Seq<FieldEnum> {
    Seq::new(
        s.fields@.len(),
        |i: int| FieldEnum { field: s.fields@[i], value: rec[s.fields@[i].index as int] },
    )
}

/// The position of the first effective field whose exposed name is `name`,
/// if any.
pub open spec fn spec_find(fields: Seq<FieldSpec>, name: Seq<char>) -> Option<int>
    decreases fields.len(),
{
    if fields.len() == 0 {
        None
    } else if fields[0].exposed_name@ == name {
        Some(0int)
    } else {
        match spec_find(fields.drop_first(), name) {
            None => None,
            Some(j) => Some(j + 1),
        }
    }
}

/// A name that no effective field exposes is found nowhere.
pub proof fn lemma_find_none(fields: Seq<FieldSpec>, name: Seq<char>)
    requires
        forall|k: int| 0 <= k < fields.len() ==> (#[trigger] fields[k]).exposed_name@ != name,
    ensures
        spec_find(fields, name) is None,
    decreases fields.len(),
{
    if fields.len() > 0 {
        lemma_find_none(fields.drop_first(), name);
    }
}

/// The first match wins: when no field before position `i` exposes `name`
/// and the field at `i` does, the search yields `i`.
pub proof fn lemma_find_first_match(fields: Seq<FieldSpec>, name: Seq<char>, i: int)
    requires
        0 <= i < fields.len(),
        fields[i].exposed_name@ == name,
        forall|k: int| 0 <= k < i ==> (#[trigger] fields[k]).exposed_name@ != name,
    ensures
        spec_find(fields, name) == Some(i),
    decreases i,
{
    if i > 0 {
        lemma_find_first_match(fields.drop_first(), name, i - 1);
    }
}

/// What a successful search means: the found position is in range, its
/// field exposes the searched name, and no earlier field does.
pub proof fn lemma_find_props(fields: Seq<FieldSpec>, name: Seq<char>)
    requires
        spec_find(fields, name) is Some,
    ensures
        ({
            let j = spec_find(fields, name)->0;
            &&& 0 <= j < fields.len()
            &&& fields[j].exposed_name@ == name
            &&& forall|k: int| 0 <= k < j ==> (#[trigger] fields[k]).exposed_name@ != name
        }),
    decreases fields.len(),
{
    let j = spec_find(fields, name)->0;
    if fields[0].exposed_name@ == name {
    } else {
        lemma_find_props(fields.drop_first(), name);
        assert forall|k: int| 0 <= k < j implies (#[trigger] fields[k]).exposed_name@ != name by {
            if k > 0 {
                assert(fields.drop_first()[k - 1] == fields[k]);
            }
        }
    }
}

impl StructSchema {
    /// The record type's name, as declared (UpperCamelCase).
    pub fn get_struct_name(&self) -> (r: &str)
        ensures
            r@ == self.struct_name@,
    {
        self.struct_name.as_str()
    }

    /// The record type's name converted to lower_snake_case, the default
    /// table name.
    pub fn get_struct_name_snake(&self) -> (r: String)
        ensures
            r@ == snake_of(self.struct_name@),
    {
        to_snake_case(self.struct_name.as_str())
    }

    /// The exposed names of the effective field set, in declaration order.
    pub fn get_field_names(&self) -> (r: Vec<String>)
        ensures
            r@.len() == self.fields@.len(),
            forall|i: int| 0 <= i < r@.len() ==> #[trigger] r@[i] == self.fields@[i].exposed_name,
            forall|i: int| 0 <= i < r@.len() ==> #[trigger] r@[i]@ == self.spec_field_names()[i],
    {
        let mut r: Vec<String> = Vec::new();
        let n: usize = self.fields.len();
        let mut i: usize = 0;
        while i < n
            invariant
                i <= n,
                n == self.fields@.len(),
                r@.len() == i,
                forall|k: int| 0 <= k < i ==> #[trigger] r@[k] == self.fields@[k].exposed_name,
            decreases n - i,
        {
            r.push(self.fields[i].exposed_name.clone());
            i = i + 1;
        }
        r
    }

    /// One carrier per effective field, in order, each holding a copy of
    /// that field's current value read from the given record.
    pub fn get_field_enums(&self, record: &Record) -> (r: Vec<FieldEnum>)
        requires
            self.covers(record.values@),
        ensures
            r@ == spec_field_enums(*self, record.values@),
    {
        let mut r: Vec<FieldEnum> = Vec::new();
        let n: usize = self.fields.len();
        let mut i: usize = 0;
        while i < n
            invariant
                self.covers(record.values@),
                i <= n,
                n == self.fields@.len(),
                r@ =~= spec_field_enums(*self, record.values@).take(i as int),
            decreases n - i,
        {
            let spec_entry = self.fields[i].clone();
            let idx: usize = spec_entry.index;
            let value = record.values[idx].clone();
            r.push(FieldEnum { field: spec_entry, value });
            proof {
                assert(r@ =~= spec_field_enums(*self, record.values@).take(i as int + 1));
            }
            i = i + 1;
        }
        proof {
            assert(spec_field_enums(*self, record.values@).take(n as int) =~= spec_field_enums(
                *self,
                record.values@,
            ));
        }
        r
    }

    /// Looks one field up by its exposed name and yields its carrier,
    /// populated from the given record; an unknown name yields the
    /// descriptive error the caller can surface.
    pub fn get_enum(&self, record: &Record, field_string: &str) -> (r: Result<FieldEnum, String>)
        requires
            self.covers(record.values@),
        ensures
            (r matches Ok(fe) ==> (spec_find(self.fields@, field_string@) matches Some(j)
                && fe == spec_field_enums(*self, record.values@)[j])),
            (r matches Err(m) ==> (spec_find(self.fields@, field_string@) is None && m@
                == "invalid field name to getenum '"@ + field_string@ + "'"@)),
    {
        let want: String = field_string.to_owned();
        let n: usize = self.fields.len();
        let mut i: usize = 0;
        while i < n
            invariant
                self.covers(record.values@),
                i <= n,
                n == self.fields@.len(),
                want@ == field_string@,
                forall|k: int|
                    0 <= k < i ==> (#[trigger] self.fields@[k]).exposed_name@ != field_string@,
            decreases n - i,
        {
            if self.fields[i].exposed_name == want {
                proof {
                    lemma_find_first_match(self.fields@, field_string@, i as int);
                }
                let spec_entry = self.fields[i].clone();
                let idx: usize = spec_entry.index;
                let value = record.values[idx].clone();
                return Ok(FieldEnum { field: spec_entry, value });
            }
            i = i + 1;
        }
        proof {
            lemma_find_none(self.fields@, field_string@);
        }
        Err("invalid field name to getenum '".to_owned().concat(field_string).concat("'"))
    }
}

/// Law: for any record type the name accessor and the value accessor have
/// one entry per effective field, and the carrier at each position is the
/// field named at that same position.
pub proof fn lemma_accessors_aligned(s: StructSchema, rec: Seq<FieldValue>)
    ensures
        s.spec_field_names().len() == s.fields@.len(),
        spec_field_enums(s, rec).len() == s.fields@.len(),
        forall|i: int|
            0 <= i < s.fields@.len() ==> (#[trigger] spec_field_enums(s, rec)[i]).field
                == s.fields@[i],
        forall|i: int|
            0 <= i < s.fields@.len() ==> (#[trigger] spec_field_enums(s, rec)[i]).field.exposed_name@
                == s.spec_field_names()[i],
{
}

/// Law: looking up any name the name accessor returns yields exactly the
/// carrier the value accessor puts at that position — the same field and a
/// copy of the same live value on the source record — provided no two
/// fields expose one name.
pub proof fn lemma_lookup_round_trip(s: StructSchema, rec: Seq<FieldValue>, i: int)
    requires
        s.distinct_names(),
        0 <= i < s.fields@.len(),
    ensures
        spec_find(s.fields@, s.spec_field_names()[i]) == Some(i),
        spec_field_enums(s, rec)[i].field == s.fields@[i],
        spec_field_enums(s, rec)[i].value == rec[s.fields@[i].index as int],
{
    lemma_find_first_match(s.fields@, s.spec_field_names()[i], i);
}

} // verus!
