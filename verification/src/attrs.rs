//! Per-field annotation parsing.
//!
//! A field carries a list of raw annotations, as the host's own parser
//! hands them over. Only annotations of this library's own namespace,
//! `sqlx_binder`, are inspected; any other annotation belongs to other
//! tooling and is ignored. Inside a `sqlx_binder(...)` list two argument
//! forms are recognized: the bare marker `skip` and the key/value form
//! `rename = "<string literal>"`. Any other argument, or a recognized name
//! in the wrong shape, is a fatal generation-time failure.

use vstd::prelude::*;

verus! {

/// A directive attached to one field: exclude the field entirely, or use
/// the given name as the field's exposed identifier everywhere downstream.
#[derive(Debug)]
pub enum FieldAttribute {
    Skip,
    Rename(String),
}

/// The ordered list of directives parsed from one annotation's argument
/// list.
#[derive(Debug)]
pub struct FieldAttributes {
    pub attrs: Vec<FieldAttribute>,
}

/// One argument inside an annotation's list, in the shapes the host's
/// parser distinguishes.
#[derive(Debug)]
pub enum AttrMeta {
    /// A bare path, such as `skip`. Carries the path's identifier.
    Marker(String),
    /// `<name> = "<string literal>"`. Carries the name and the literal.
    StrValue(String, String),
    /// `<name> = <some expression other than a string literal>`.
    OtherValue(String),
    /// A nested list `<name>(...)`.
    Nested(String),
}

/// One whole annotation on a field: its placement, the last segment of its
/// path, and its argument list when it has the list form `name(...)`.
#[derive(Debug)]
pub struct RawAttribute {
    /// Whether the annotation is an outer one (`#[...]`, not `#![...]`).
    pub outer: bool,
    /// The last segment of the annotation's path.
    pub name: String,
    /// The arguments, present exactly when the annotation is of the list
    /// form.
    pub args: Option<Vec<AttrMeta>>,
}

/// A fatal generation-time failure: generation aborts for the whole type
/// with no partial output. The carried string is the offending annotation
/// text or the shape message.
#[derive(Debug)]
pub enum GenError {
    /// An argument of a `sqlx_binder` annotation that is not a recognized
    /// directive, or a recognized one in the wrong shape. Carries the
    /// offending name.
    UnexpectedAttribute(String),
    /// A type whose shape is not a plain named-field record. Carries the
    /// message naming the unsupported shape.
    UnsupportedShape(String),
}

/// The directive one annotation argument stands for: `skip` as a bare
/// marker, `rename = "<literal>"`, and nothing else.
pub open spec fn spec_meta_directive(m: AttrMeta) -> Result<FieldAttribute, GenError> {
    match m {
        AttrMeta::Marker(name) => (if name@ == "skip"@ {
            Ok(FieldAttribute::Skip)
        } else {
            Err(GenError::UnexpectedAttribute(name))
        }),
        AttrMeta::StrValue(name, value) => (if name@ == "rename"@ {
            Ok(FieldAttribute::Rename(value))
        } else {
            Err(GenError::UnexpectedAttribute(name))
        }),
        AttrMeta::OtherValue(name) => Err(GenError::UnexpectedAttribute(name)),
        AttrMeta::Nested(name) => Err(GenError::UnexpectedAttribute(name)),
    }
}

/// The directives of a whole argument list, in order; the first failing
/// argument's error if any argument fails.
pub open spec fn spec_parse_metas(ms: Seq<AttrMeta>) -> Result<Seq<FieldAttribute>, GenError>
    decreases ms.len(),
{
    if ms.len() == 0 {
        Ok(Seq::<FieldAttribute>::empty())
    } else {
        match spec_parse_metas(ms.drop_last()) {
            Err(e) => Err(e),
            Ok(pre) => match spec_meta_directive(ms.last()) {
                Err(e) => Err(e),
                Ok(d) => Ok(pre.push(d)),
            },
        }
    }
}

/// Once a prefix of the argument list fails, the whole list fails with
/// that same first error.
pub proof fn lemma_parse_metas_prefix_err(ms: Seq<AttrMeta>, i: int)
    requires
        0 <= i <= ms.len(),
        spec_parse_metas(ms.take(i)) is Err,
    ensures
        spec_parse_metas(ms) == spec_parse_metas(ms.take(i)),
    decreases ms.len() - i,
{
    if i == ms.len() {
        assert(ms.take(i) =~= ms);
    } else {
        assert(ms.take(i + 1).drop_last() =~= ms.take(i));
        lemma_parse_metas_prefix_err(ms, i + 1);
    }
}

/// What the annotations of one whole field contribute: nothing unless the
/// annotation is an outer `sqlx_binder` one of the list form, else the
/// directives of its argument list.
pub open spec fn spec_attr_directives(a: RawAttribute) -> Result<Seq<FieldAttribute>, GenError> {
    if a.outer && a.name@ == "sqlx_binder"@ {
        match a.args {
            Some(ms) => spec_parse_metas(ms@),
            None => Ok(Seq::<FieldAttribute>::empty()),
        }
    } else {
        Ok(Seq::<FieldAttribute>::empty())
    }
}

/// The ordered directives of a field's whole annotation list; the first
/// failing annotation's error if any fails.
pub open spec fn spec_attributes(attrs: Seq<RawAttribute>) -> Result<Seq<FieldAttribute>, GenError>
    decreases attrs.len(),
{
    if attrs.len() == 0 {
        Ok(Seq::<FieldAttribute>::empty())
    } else {
        match spec_attributes(attrs.drop_last()) {
            Err(e) => Err(e),
            Ok(pre) => match spec_attr_directives(attrs.last()) {
                Err(e) => Err(e),
                Ok(ds) => Ok(pre + ds),
            },
        }
    }
}

/// Once a prefix of the annotation list fails, the whole list fails with
/// that same first error.
pub proof fn lemma_attributes_prefix_err(attrs: Seq<RawAttribute>, i: int)
    requires
        0 <= i <= attrs.len(),
        spec_attributes(attrs.take(i)) is Err,
    ensures
        spec_attributes(attrs) == spec_attributes(attrs.take(i)),
    decreases attrs.len() - i,
{
    if i == attrs.len() {
        assert(attrs.take(i) =~= attrs);
    } else {
        assert(attrs.take(i + 1).drop_last() =~= attrs.take(i));
        lemma_attributes_prefix_err(attrs, i + 1);
    }
}

impl FieldAttributes {
    /// Parses one annotation's argument list into its ordered directives.
    /// The first argument that is not a recognized directive aborts with a
    /// fatal error carrying its name.
    pub fn parse(input: &Vec<AttrMeta>) -> (r: Result<FieldAttributes, GenError>)
        ensures
            (r matches Ok(fa) ==> spec_parse_metas(input@) == Ok::<_, GenError>(fa.attrs@)),
            (r matches Err(e) ==> spec_parse_metas(input@) == Err::<Seq<FieldAttribute>, _>(e)),
    {
        let skip_lit: String = "skip".to_owned();
        let rename_lit: String = "rename".to_owned();
        let mut attrs: Vec<FieldAttribute> = Vec::new();
        let n: usize = input.len();
        let mut i: usize = 0;
        while i < n
            invariant
                i <= n,
                n == input@.len(),
                skip_lit@ == "skip"@,
                rename_lit@ == "rename"@,
                spec_parse_metas(input@.take(i as int)) == Ok::<_, GenError>(attrs@),
            decreases n - i,
        {
            proof {
                assert(input@.take(i as int + 1).drop_last() =~= input@.take(i as int));
                assert(input@.take(i as int + 1).last() == input@[i as int]);
            }
            let directive: Result<FieldAttribute, GenError> = match &input[i] {
                AttrMeta::Marker(name) => {
                    if *name == skip_lit {
                        Ok(FieldAttribute::Skip)
                    } else {
                        Err(GenError::UnexpectedAttribute(name.clone()))
                    }
                },
                AttrMeta::StrValue(name, value) => {
                    if *name == rename_lit {
                        Ok(FieldAttribute::Rename(value.clone()))
                    } else {
                        Err(GenError::UnexpectedAttribute(name.clone()))
                    }
                },
                AttrMeta::OtherValue(name) => Err(GenError::UnexpectedAttribute(name.clone())),
                AttrMeta::Nested(name) => Err(GenError::UnexpectedAttribute(name.clone())),
            };
            match directive {
                Ok(d) => {
                    attrs.push(d);
                },
                Err(e) => {
                    proof {
                        lemma_parse_metas_prefix_err(input@, i as int + 1);
                    }
                    return Err(e);
                },
            }
            i = i + 1;
        }
        proof {
            assert(input@.take(n as int) =~= input@);
        }
        Ok(FieldAttributes { attrs })
    }
}

/// Collects the directives of one field's whole annotation list, in order:
/// only outer `sqlx_binder` annotations of the list form contribute, and
/// the first failing argument aborts with its fatal error.
pub fn attributes(attrs: &Vec<RawAttribute>) -> (r: Result<Vec<FieldAttribute>, GenError>)
    ensures
        (r matches Ok(ds) ==> spec_attributes(attrs@) == Ok::<_, GenError>(ds@)),
        (r matches Err(e) ==> spec_attributes(attrs@) == Err::<Seq<FieldAttribute>, _>(e)),
{
    let binder_lit: String = "sqlx_binder".to_owned();
    let mut res: Vec<FieldAttribute> = Vec::new();
    let n: usize = attrs.len();
    let mut i: usize = 0;
    while i < n
        invariant
            i <= n,
            n == attrs@.len(),
            binder_lit@ == "sqlx_binder"@,
            spec_attributes(attrs@.take(i as int)) == Ok::<_, GenError>(res@),
        decreases n - i,
    {
        proof {
            assert(attrs@.take(i as int + 1).drop_last() =~= attrs@.take(i as int));
            assert(attrs@.take(i as int + 1).last() == attrs@[i as int]);
        }
        let attr = &attrs[i];
        if attr.outer && attr.name == binder_lit {
            match &attr.args {
                Some(metas) => {
                    match FieldAttributes::parse(metas) {
                        Ok(fa) => {
                            let mut parsed: Vec<FieldAttribute> = fa.attrs;
                            res.append(&mut parsed);
                        },
                        Err(e) => {
                            proof {
                                lemma_attributes_prefix_err(attrs@, i as int + 1);
                            }
                            return Err(e);
                        },
                    }
                },
                None => {},
            }
        }
        i = i + 1;
    }
    proof {
        assert(attrs@.take(n as int) =~= attrs@);
    }
    Ok(res)
}

} // verus!
