use sqlx::{Arguments, Execute};
use sqlx_binder::attrs::{attributes, AttrMeta, FieldAttributes, GenError, RawAttribute};
use sqlx_binder::names::to_snake_case;
use sqlx_binder::schema::{extract, FieldDecl, StructSchema, TypeDecl, TypeShape};
use sqlx_binder::sql::SqlBuildError;
use sqlx_binder::stmt::prepare;
use sqlx_binder::values::{FieldValue, Record, TypeTag};

fn named_decl(name: &str, fields: Vec<FieldDecl>) -> TypeDecl {
    TypeDecl {
        name: name.to_string(),
        shape: TypeShape::NamedFields(fields),
    }
}

fn field_with(name: &str, ty: TypeTag, metas: Vec<AttrMeta>) -> FieldDecl {
    FieldDecl {
        name: name.to_string(),
        ty,
        attrs: vec![RawAttribute {
            outer: true,
            name: "sqlx_binder".to_string(),
            args: Some(metas),
        }],
    }
}

fn bare_field(name: &str, ty: TypeTag) -> FieldDecl {
    FieldDecl {
        name: name.to_string(),
        ty,
        attrs: Vec::new(),
    }
}

fn dog_schema() -> StructSchema {
    extract(&named_decl(
        "Dog",
        vec![
            bare_field("name", TypeTag::Text),
            bare_field("age", TypeTag::Int),
            bare_field("life_expectancy", TypeTag::Int),
        ],
    ))
    .unwrap()
}

fn dog_record() -> Record {
    Record {
        values: vec![
            FieldValue::Text("Taro".to_string()),
            FieldValue::Int(3),
            FieldValue::Int(9),
        ],
    }
}

#[test]
fn snake_case_examples() {
    assert_eq!(to_snake_case("Dog"), "dog");
    assert_eq!(to_snake_case("ThisIsStructName"), "this_is_struct_name");
}

#[test]
fn snake_case_no_acronym_grouping() {
    assert_eq!(to_snake_case("HTTPServer"), "h_t_t_p_server");
    assert_eq!(to_snake_case("already_snake"), "already_snake");
    assert_eq!(to_snake_case("Dog2Cat"), "dog2_cat");
    assert_eq!(to_snake_case(""), "");
}

#[test]
fn parse_recognizes_skip_and_rename() {
    let fa = FieldAttributes::parse(&vec![
        AttrMeta::StrValue("rename".to_string(), "nickname".to_string()),
        AttrMeta::Marker("skip".to_string()),
    ])
    .unwrap();
    assert_eq!(fa.attrs.len(), 2);
    assert!(matches!(
        &fa.attrs[0],
        sqlx_binder::attrs::FieldAttribute::Rename(n) if n == "nickname"
    ));
    assert!(matches!(
        &fa.attrs[1],
        sqlx_binder::attrs::FieldAttribute::Skip
    ));
}

#[test]
fn parse_rejects_unknown_and_misshaped_arguments() {
    let unknown = FieldAttributes::parse(&vec![AttrMeta::Marker("ignore".to_string())]);
    assert!(matches!(unknown, Err(GenError::UnexpectedAttribute(n)) if n == "ignore"));

    let misshaped_rename = FieldAttributes::parse(&vec![AttrMeta::OtherValue("rename".to_string())]);
    assert!(matches!(misshaped_rename, Err(GenError::UnexpectedAttribute(n)) if n == "rename"));

    let misshaped_skip =
        FieldAttributes::parse(&vec![AttrMeta::StrValue("skip".to_string(), "x".to_string())]);
    assert!(matches!(misshaped_skip, Err(GenError::UnexpectedAttribute(n)) if n == "skip"));

    let nested = FieldAttributes::parse(&vec![AttrMeta::Nested("rename".to_string())]);
    assert!(matches!(nested, Err(GenError::UnexpectedAttribute(n)) if n == "rename"));
}

#[test]
fn attributes_ignore_other_namespaces_and_shapes() {
    let attrs = vec![
        RawAttribute {
            outer: true,
            name: "serde".to_string(),
            args: Some(vec![AttrMeta::Marker("whatever".to_string())]),
        },
        RawAttribute {
            outer: false,
            name: "sqlx_binder".to_string(),
            args: Some(vec![AttrMeta::Marker("bad".to_string())]),
        },
        RawAttribute {
            outer: true,
            name: "sqlx_binder".to_string(),
            args: None,
        },
        RawAttribute {
            outer: true,
            name: "sqlx_binder".to_string(),
            args: Some(vec![AttrMeta::Marker("skip".to_string())]),
        },
    ];
    let ds = attributes(&attrs).unwrap();
    assert_eq!(ds.len(), 1);
    assert!(matches!(&ds[0], sqlx_binder::attrs::FieldAttribute::Skip));
}

#[test]
fn first_directive_wins() {
    let renamed_then_skipped = extract(&named_decl(
        "Cat",
        vec![field_with(
            "name",
            TypeTag::Text,
            vec![
                AttrMeta::StrValue("rename".to_string(), "nickname".to_string()),
                AttrMeta::Marker("skip".to_string()),
            ],
        )],
    ))
    .unwrap();
    assert_eq!(renamed_then_skipped.get_field_names(), vec!["nickname"]);

    let skipped_then_renamed = extract(&named_decl(
        "Cat",
        vec![field_with(
            "name",
            TypeTag::Text,
            vec![
                AttrMeta::Marker("skip".to_string()),
                AttrMeta::StrValue("rename".to_string(), "nickname".to_string()),
            ],
        )],
    ))
    .unwrap();
    assert_eq!(skipped_then_renamed.get_field_names().len(), 0);
}

#[test]
fn extract_rejects_unsupported_shapes() {
    let tuple_like = extract(&TypeDecl {
        name: "T".to_string(),
        shape: TypeShape::UnnamedFields,
    });
    assert!(
        matches!(tuple_like, Err(GenError::UnsupportedShape(m)) if m == "Only NamedFields is supported")
    );

    let unit_like = extract(&TypeDecl {
        name: "T".to_string(),
        shape: TypeShape::Unit,
    });
    assert!(
        matches!(unit_like, Err(GenError::UnsupportedShape(m)) if m == "Only NamedFields is supported")
    );

    let enum_like = extract(&TypeDecl {
        name: "T".to_string(),
        shape: TypeShape::Enum,
    });
    assert!(
        matches!(enum_like, Err(GenError::UnsupportedShape(m)) if m == "Enum is not supported. Only struct is supported")
    );

    let union_like = extract(&TypeDecl {
        name: "T".to_string(),
        shape: TypeShape::Union,
    });
    assert!(
        matches!(union_like, Err(GenError::UnsupportedShape(m)) if m == "Union is not supported. Only struct is supported")
    );
}

#[test]
fn extract_propagates_field_errors() {
    let bad = extract(&named_decl(
        "Dog",
        vec![
            bare_field("name", TypeTag::Text),
            field_with(
                "age",
                TypeTag::Int,
                vec![AttrMeta::Marker("hide".to_string())],
            ),
        ],
    ));
    assert!(matches!(bad, Err(GenError::UnexpectedAttribute(n)) if n == "hide"));
}

#[test]
fn lookup_by_renamed_name_round_trips() {
    let schema = extract(&named_decl(
        "Dog",
        vec![
            field_with(
                "name",
                TypeTag::Text,
                vec![AttrMeta::StrValue(
                    "rename".to_string(),
                    "nickname".to_string(),
                )],
            ),
            bare_field("age", TypeTag::Int),
        ],
    ))
    .unwrap();
    let rec = Record {
        values: vec![FieldValue::Text("Taro".to_string()), FieldValue::Int(3)],
    };
    let names = schema.get_field_names();
    assert_eq!(names, vec!["nickname", "age"]);
    let enums = schema.get_field_enums(&rec);
    assert_eq!(names.len(), enums.len());
    for (i, name) in names.iter().enumerate() {
        let found = schema.get_enum(&rec, name).unwrap();
        assert_eq!(found, enums[i]);
    }
    assert_eq!(
        schema.get_enum(&rec, "nickname").unwrap().value,
        FieldValue::Text("Taro".to_string())
    );
}

#[test]
fn lookup_unknown_name_reports_it() {
    let schema = dog_schema();
    let rec = dog_record();
    let err = schema.get_enum(&rec, "owner").unwrap_err();
    assert_eq!(err, "invalid field name to getenum 'owner'");
}

#[test]
fn insert_plan_full_field_list() {
    let schema = dog_schema();
    let rec = dog_record();
    let plan = schema
        .insert_plan(&rec, None, None, "", "", &Vec::new(), "mydb")
        .unwrap();
    assert_eq!(
        plan.sql,
        "INSERT INTO mydb.dog (name,age,life_expectancy) VALUE (?,?,?);"
    );
    assert_eq!(
        plan.binds,
        vec![
            FieldValue::Text("Taro".to_string()),
            FieldValue::Int(3),
            FieldValue::Int(9),
        ]
    );
}

#[test]
fn insert_plan_omits_primary_key() {
    let schema = dog_schema();
    let rec = dog_record();
    let plan = schema
        .insert_plan(&rec, Some("name"), None, "", "", &Vec::new(), "mydb")
        .unwrap();
    assert_eq!(plan.sql, "INSERT INTO mydb.dog (age,life_expectancy) VALUE (?,?);");
    assert_eq!(plan.binds, vec![FieldValue::Int(3), FieldValue::Int(9)]);

    let middle = schema
        .insert_plan(&rec, Some("age"), None, "", "", &Vec::new(), "mydb")
        .unwrap();
    assert_eq!(
        middle.sql,
        "INSERT INTO mydb.dog (name,life_expectancy) VALUE (?,?);"
    );
    assert_eq!(
        middle.binds,
        vec![FieldValue::Text("Taro".to_string()), FieldValue::Int(9)]
    );
}

#[test]
fn insert_plan_extra_fragments_and_custom_table() {
    let schema = dog_schema();
    let rec = dog_record();
    let plan = schema
        .insert_plan(
            &rec,
            None,
            Some("dogs_archive"),
            ",create_user,version",
            ",?,1",
            &vec!["admin".to_string()],
            "mydb",
        )
        .unwrap();
    assert_eq!(
        plan.sql,
        "INSERT INTO mydb.dogs_archive (name,age,life_expectancy,create_user,version) VALUE (?,?,?,?,1);"
    );
    assert_eq!(
        plan.binds,
        vec![
            FieldValue::Text("Taro".to_string()),
            FieldValue::Int(3),
            FieldValue::Int(9),
            FieldValue::Text("admin".to_string()),
        ]
    );
}

#[test]
fn insert_plan_unknown_primary_key_fails() {
    let schema = dog_schema();
    let rec = dog_record();
    let err = schema
        .insert_plan(&rec, Some("id"), None, "", "", &Vec::new(), "mydb")
        .unwrap_err();
    assert!(matches!(err, SqlBuildError::ColumnNotFound(n) if n == "id"));
}

#[test]
fn update_plan_key_goes_to_where_clause_and_binds_last() {
    let schema = dog_schema();
    let rec = dog_record();
    let plan = schema
        .update_plan(&rec, "name", None, "", &Vec::new(), "mydb")
        .unwrap();
    assert_eq!(plan.sql, "UPDATE mydb.dog SET age=?,life_expectancy=? WHERE name=?;");
    assert_eq!(
        plan.binds,
        vec![
            FieldValue::Int(3),
            FieldValue::Int(9),
            FieldValue::Text("Taro".to_string()),
        ]
    );
    assert_eq!(
        plan.binds.last().unwrap(),
        &FieldValue::Text("Taro".to_string())
    );
}

#[test]
fn update_plan_extra_values_before_key() {
    let schema = dog_schema();
    let rec = dog_record();
    let plan = schema
        .update_plan(
            &rec,
            "age",
            Some("dogs"),
            ",update_user=?",
            &vec!["admin".to_string()],
            "mydb",
        )
        .unwrap();
    assert_eq!(
        plan.sql,
        "UPDATE mydb.dogs SET name=?,life_expectancy=?,update_user=? WHERE age=?;"
    );
    assert_eq!(
        plan.binds,
        vec![
            FieldValue::Text("Taro".to_string()),
            FieldValue::Int(9),
            FieldValue::Text("admin".to_string()),
            FieldValue::Int(3),
        ]
    );
}

#[test]
fn update_plan_unknown_primary_key_fails() {
    let schema = dog_schema();
    let rec = dog_record();
    let err = schema
        .update_plan(&rec, "id", None, "", &Vec::new(), "mydb")
        .unwrap_err();
    assert!(matches!(err, SqlBuildError::ColumnNotFound(n) if n == "id"));
}

#[test]
fn prepared_insert_binds_one_value_per_placeholder() {
    let schema = dog_schema();
    let rec = dog_record();
    let plan = schema
        .insert_plan(&rec, None, None, ",create_user", ",?", &vec!["admin".to_string()], "mydb")
        .unwrap();
    let generated_marks = plan.sql.matches('?').count();
    assert_eq!(generated_marks, 4);
    assert_eq!(plan.binds.len(), 4);
    let mut prepared = prepare(&plan).inner;
    let args = prepared.take_arguments().unwrap().unwrap();
    assert_eq!(args.len(), plan.binds.len());
}

#[test]
fn prepared_update_binds_key_last() {
    let schema = dog_schema();
    let rec = dog_record();
    let plan = schema
        .update_plan(&rec, "name", None, "", &Vec::new(), "mydb")
        .unwrap();
    let marks = plan.sql.matches('?').count();
    assert_eq!(marks, plan.binds.len());
    let mut prepared = prepare(&plan).inner;
    let args = prepared.take_arguments().unwrap().unwrap();
    assert_eq!(args.len(), plan.binds.len());
}
