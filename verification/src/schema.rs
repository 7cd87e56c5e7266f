//! Schema extraction.
//!
//! A record type is described by its name and the ordered list of its
//! field declarations. Extraction applies each field's first directive —
//! `skip` removes the field, `rename` changes its exposed identifier, no
//! directive keeps the declared name — and yields the effective, ordered
//! field set. Declaration order is preserved exactly; only named-field
//! records are supported.

use vstd::prelude::*;

use crate::attrs::{spec_attributes, attributes, GenError, FieldAttribute, RawAttribute};
use crate::values::TypeTag;

verus! {

/// One field as declared on the record type: its name, its value kind,
/// and its raw annotation list.
#[derive(Debug)]
pub struct FieldDecl {
    pub name: String,
    pub ty: TypeTag,
    pub attrs: Vec<RawAttribute>,
}

/// The shape of a declared type, in the cases the host distinguishes.
/// Only `NamedFields` can be extracted.
#[derive(Debug)]
pub enum TypeShape {
    /// A record with named fields, in declaration order.
    NamedFields(Vec<FieldDecl>),
    /// A tuple-style record.
    UnnamedFields,
    /// A field-less record.
    Unit,
    /// A sum type.
    Enum,
    /// An untagged union.
    Union,
}

/// A type declaration as handed over by the host: the type's name and its
/// shape.
#[derive(Debug)]
pub struct TypeDecl {
    pub name: String,
    pub shape: TypeShape,
}

/// One entry of the effective field set: the declared name, the exposed
/// identifier used downstream, the value kind, and the position of the
/// field in the declaration order.
#[derive(Debug)]
pub struct FieldSpec {
    pub original_name: String,
    pub exposed_name: String,
    pub ty: TypeTag,
    pub index: usize,
}

impl Clone for FieldSpec {
    fn clone(&self) -> (r: Self)
        ensures
            r == *self,
    {
        FieldSpec {
            original_name: self.original_name.clone(),
            exposed_name: self.exposed_name.clone(),
            ty: self.ty,
            index: self.index,
        }
    }
}

/// The effective, ordered field set of one record type: only fields
/// without a `skip` directive, in declaration order, renames applied.
#[derive(Debug)]
pub struct StructSchema {
    pub struct_name: String,
    pub fields: Vec<FieldSpec>,
}

/// What one declared field contributes to the effective field set, given
/// its position: nothing when its first directive is `skip`, an entry with
/// the rename applied or the declared name kept otherwise; a field whose
/// annotations fail to parse aborts with that error.
pub open spec fn spec_field_entry(f: FieldDecl, i: usize) -> Result<Option<FieldSpec>, GenError> {
    match spec_attributes(f.attrs@) {
        Err(e) => Err(e),
        Ok(ds) => Ok(
            if ds.len() == 0 {
                Some(
                    FieldSpec {
                        original_name: f.name,
                        exposed_name: f.name,
                        ty: f.ty,
                        index: i,
                    },
                )
            } else {
                match ds[0] {
                    FieldAttribute::Skip => None,
                    FieldAttribute::Rename(n) => Some(
                        FieldSpec { original_name: f.name, exposed_name: n, ty: f.ty, index: i },
                    ),
                }
            },
        ),
    }
}

/// The effective field set of a whole declaration list: each field's
/// contribution in declaration order; the first failing field's error if
/// any fails.
pub open spec fn spec_fields(fs: Seq<FieldDecl>) -> Result<Seq<FieldSpec>, GenError>
    decreases fs.len(),
{
    if fs.len() == 0 {
        Ok(Seq::<FieldSpec>::empty())
    } else {
        match spec_fields(fs.drop_last()) {
            Err(e) => Err(e),
            Ok(pre) => match spec_field_entry(fs.last(), (fs.len() - 1) as usize) {
                Err(e) => Err(e),
                Ok(None) => Ok(pre),
                Ok(Some(entry)) => Ok(pre.push(entry)),
            },
        }
    }
}

/// Once a prefix of the declaration list fails, the whole list fails with
/// that same first error.
pub proof fn lemma_fields_prefix_err(fs: Seq<FieldDecl>, i: int)
    requires
        0 <= i <= fs.len(),
        spec_fields(fs.take(i)) is Err,
    ensures
        spec_fields(fs) == spec_fields(fs.take(i)),
    decreases fs.len() - i,
{
    if i == fs.len() {
        assert(fs.take(i) =~= fs);
    } else {
        assert(fs.take(i + 1).drop_last() =~= fs.take(i));
        lemma_fields_prefix_err(fs, i + 1);
    }
}

/// Law: extraction keeps declaration order and never re-sorts. Every entry
/// of the effective field set points at a declared position, and the
/// entries' positions are strictly increasing — the source order with the
/// skipped fields removed. In particular a record carrying one value per
/// declared field covers the whole effective field set.
pub proof fn lemma_fields_order(fs: Seq<FieldDecl>)
    requires
        spec_fields(fs) is Ok,
        fs.len() <= usize::MAX,
    ensures
        ({
            let specs = spec_fields(fs)->Ok_0;
            &&& specs.len() <= fs.len()
            &&& forall|k: int| 0 <= k < specs.len() ==> (#[trigger] specs[k]).index < fs.len()
            &&& forall|k1: int, k2: int|
                0 <= k1 < k2 < specs.len() ==> (#[trigger] specs[k1]).index < (
                #[trigger] specs[k2]).index
        }),
    decreases fs.len(),
{
    if fs.len() > 0 {
        assert(spec_fields(fs.drop_last()) is Ok);
        lemma_fields_order(fs.drop_last());
        let pre = spec_fields(fs.drop_last())->Ok_0;
        let specs = spec_fields(fs)->Ok_0;
        match spec_field_entry(fs.last(), (fs.len() - 1) as usize) {
            Err(_) => {
                assert(false);
            },
            Ok(None) => {
                assert(specs == pre);
            },
            Ok(Some(entry)) => {
                assert(specs == pre.push(entry));
                assert(entry.index == fs.len() - 1);
                assert(forall|k: int|
                    0 <= k < pre.len() ==> (#[trigger] pre[k]).index < fs.len() - 1);
            },
        }
    }
}

/// The message carried by the shape failure for each unsupported shape.
pub open spec fn spec_shape_message(shape: TypeShape) -> Seq<char> {
    match shape {
        TypeShape::NamedFields(_) => Seq::<char>::empty(),
        TypeShape::UnnamedFields => "Only NamedFields is supported"@,
        TypeShape::Unit => "Only NamedFields is supported"@,
        TypeShape::Enum => "Enum is not supported. Only struct is supported"@,
        TypeShape::Union => "Union is not supported. Only struct is supported"@,
    }
}

impl StructSchema {
    /// The exposed names of the effective field set, in order.
    pub open spec fn spec_field_names(self) -> Seq<Seq<char>> {
        Seq::new(self.fields@.len(), |i: int| self.fields@[i].exposed_name@)
    }

    /// True when no two entries of the effective field set expose the same
    /// name. Renaming into a collision is the caller's fault and left
    /// undefined; the laws that need distinct names assume this.
    pub open spec fn distinct_names(self) -> bool {
        forall|i: int, j: int|
            0 <= i < j < self.fields@.len() ==> (#[trigger] self.fields@[i]).exposed_name@ != (
            #[trigger] self.fields@[j]).exposed_name@
    }

    /// True when every entry's declaration index points into the given
    /// record's value list: the record carries all declared fields.
    pub open spec fn covers(self, rec: Seq<crate::values::FieldValue>) -> bool {
        forall|i: int|
            0 <= i < self.fields@.len() ==> (#[trigger] self.fields@[i]).index < rec.len()
    }
}

/// Produces the effective, ordered field set of one type declaration.
/// Fails, with no partial output, on a declaration that is not a
/// named-field record, and on any field whose annotations fail to parse.
pub fn extract(decl: &TypeDecl) -> (r: Result<StructSchema, GenError>)
    ensures
        (r matches Ok(s) ==> ({
            &&& s.struct_name == decl.name
            &&& decl.shape matches TypeShape::NamedFields(fs) && spec_fields(fs@) == Ok::<
                _,
                GenError,
            >(s.fields@)
        })),
        (r matches Err(e) ==> (match decl.shape {
            TypeShape::NamedFields(fs) => spec_fields(fs@) == Err::<Seq<FieldSpec>, _>(e),
            _ => e matches GenError::UnsupportedShape(m) && m@ == spec_shape_message(decl.shape),
        })),
{
    let fields: &Vec<FieldDecl> = match &decl.shape {
        TypeShape::NamedFields(fs) => fs,
        TypeShape::UnnamedFields => {
            return Err(GenError::UnsupportedShape("Only NamedFields is supported".to_owned()));
        },
        TypeShape::Unit => {
            return Err(GenError::UnsupportedShape("Only NamedFields is supported".to_owned()));
        },
        TypeShape::Enum => {
            return Err(
                GenError::UnsupportedShape(
                    "Enum is not supported. Only struct is supported".to_owned(),
                ),
            );
        },
        TypeShape::Union => {
            return Err(
                GenError::UnsupportedShape(
                    "Union is not supported. Only struct is supported".to_owned(),
                ),
            );
        },
    };
    let mut out: Vec<FieldSpec> = Vec::new();
    let n: usize = fields.len();
    let mut i: usize = 0;
    while i < n
        invariant
            i <= n,
            n == fields@.len(),
            decl.shape is NamedFields,
            decl.shape->NamedFields_0@ == fields@,
            spec_fields(fields@.take(i as int)) == Ok::<_, GenError>(out@),
        decreases n - i,
    {
        proof {
            assert(fields@.take(i as int + 1).drop_last() =~= fields@.take(i as int));
            assert(fields@.take(i as int + 1).last() == fields@[i as int]);
        }
        let f = &fields[i];
        match attributes(&f.attrs) {
            Err(e) => {
                proof {
                    let pre = fields@.take(i as int + 1);
                    assert(pre.len() == i + 1);
                    assert((pre.len() - 1) as usize == i);
                    assert(spec_field_entry(pre.last(), i) == Err::<Option<FieldSpec>, GenError>(
                        e,
                    ));
                    assert(spec_fields(pre) == Err::<Seq<FieldSpec>, GenError>(e));
                    lemma_fields_prefix_err(fields@, i as int + 1);
                    assert(decl.shape is NamedFields);
                    assert(decl.shape->NamedFields_0@ == fields@);
                    assert(spec_fields(decl.shape->NamedFields_0@) == Err::<
                        Seq<FieldSpec>,
                        GenError,
                    >(e));
                }
                return Err(e);
            },
            Ok(ds) => {
                if ds.len() == 0 {
                    out.push(
                        FieldSpec {
                            original_name: f.name.clone(),
                            exposed_name: f.name.clone(),
                            ty: f.ty,
                            index: i,
                        },
                    );
                } else {
                    match &ds[0] {
                        FieldAttribute::Skip => {},
                        FieldAttribute::Rename(new_name) => {
                            out.push(
                                FieldSpec {
                                    original_name: f.name.clone(),
                                    exposed_name: new_name.clone(),
                                    ty: f.ty,
                                    index: i,
                                },
                            );
                        },
                    }
                }
            },
        }
        i = i + 1;
    }
    proof {
        assert(fields@.take(n as int) =~= fields@);
    }
    Ok(StructSchema { struct_name: decl.name.clone(), fields: out })
}

} // verus!
