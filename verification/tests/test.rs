use sqlx::{Arguments, Execute};
use sqlx_binder::attrs::{AttrMeta, RawAttribute};
use sqlx_binder::schema::{extract, FieldDecl, FieldSpec, StructSchema, TypeDecl, TypeShape};
use sqlx_binder::sql::SqlPlan;
use sqlx_binder::stmt::prepare;
use sqlx_binder::synth::FieldEnum;
use sqlx_binder::values::{FieldValue, Record, TypeTag};

fn plain_field(name: &str, ty: TypeTag) -> FieldDecl {
    FieldDecl {
        name: name.to_string(),
        ty,
        attrs: Vec::new(),
    }
}

fn skip_field(name: &str, ty: TypeTag) -> FieldDecl {
    FieldDecl {
        name: name.to_string(),
        ty,
        attrs: vec![RawAttribute {
            outer: true,
            name: "sqlx_binder".to_string(),
            args: Some(vec![AttrMeta::Marker("skip".to_string())]),
        }],
    }
}

fn dog_schema() -> StructSchema {
    let decl = TypeDecl {
        name: "Dog".to_string(),
        shape: TypeShape::NamedFields(vec![
            plain_field("name", TypeTag::Text),
            plain_field("age", TypeTag::Int),
            plain_field("life_expectancy", TypeTag::Int),
        ]),
    };
    extract(&decl).unwrap()
}

fn dog_record() -> Record {
    Record {
        values: vec![
            FieldValue::Text("Taro".to_string()),
            FieldValue::Int(3),
            FieldValue::Int(9),
        ],
    }
}

fn dog_field_spec(name: &str, ty: TypeTag, index: usize) -> FieldSpec {
    FieldSpec {
        original_name: name.to_string(),
        exposed_name: name.to_string(),
        ty,
        index,
    }
}

#[test]
fn test_get_struct_name() {
    let schema = dog_schema();
    let _dog = dog_record();
    let struct_name = schema.get_struct_name();

    assert_eq!(struct_name, "Dog");
}

#[test]
fn test_get_struct_name_snake() {
    let decl = TypeDecl {
        name: "ThisIsStructName".to_string(),
        shape: TypeShape::NamedFields(vec![plain_field("name", TypeTag::Text)]),
    };
    let schema = extract(&decl).unwrap();
    let dog = Record {
        values: vec![FieldValue::Text("Taro".to_string())],
    };

    let struct_name = schema.get_struct_name_snake();
    assert_eq!(dog.values[0], FieldValue::Text(String::from("Taro")));
    assert_eq!(struct_name, "this_is_struct_name");
}

#[test]
fn test_get_field_names() {
    let schema = dog_schema();
    let _dog = dog_record();
    let field_names = schema.get_field_names();

    assert_eq!(field_names[0], "name");
    assert_eq!(field_names[1], "age");
    assert_eq!(field_names[2], "life_expectancy");
}

#[test]
fn test_get_field_enums() {
    let schema = dog_schema();
    let dog = dog_record();
    let field_enums = schema.get_field_enums(&dog);

    assert_eq!(
        field_enums[0],
        FieldEnum {
            field: dog_field_spec("name", TypeTag::Text, 0),
            value: FieldValue::Text("Taro".to_string()),
        }
    );
    assert_eq!(
        field_enums[1],
        FieldEnum {
            field: dog_field_spec("age", TypeTag::Int, 1),
            value: FieldValue::Int(3),
        }
    );
    assert_eq!(
        field_enums[2],
        FieldEnum {
            field: dog_field_spec("life_expectancy", TypeTag::Int, 2),
            value: FieldValue::Int(9),
        }
    );
}

#[test]
fn test_iterate_with_enum() {
    let schema = dog_schema();
    let dog = dog_record();
    let fields = vec![
        "name".to_string(),
        "age".to_string(),
        "life_expectancy".to_string(),
    ];
    let mut fieldvalues: Vec<FieldEnum> = vec![];
    for field_name in fields.into_iter() {
        fieldvalues.push(schema.get_enum(&dog, &field_name).unwrap());
    }
    assert_eq!(
        fieldvalues[0],
        FieldEnum {
            field: dog_field_spec("name", TypeTag::Text, 0),
            value: FieldValue::Text("Taro".to_string()),
        }
    );
    assert_eq!(
        fieldvalues[1],
        FieldEnum {
            field: dog_field_spec("age", TypeTag::Int, 1),
            value: FieldValue::Int(3),
        }
    );
    assert_eq!(
        fieldvalues[2],
        FieldEnum {
            field: dog_field_spec("life_expectancy", TypeTag::Int, 2),
            value: FieldValue::Int(9),
        }
    );
}

#[test]
fn test_multiple_derive() {
    let decl1 = TypeDecl {
        name: "Test1".to_string(),
        shape: TypeShape::NamedFields(vec![plain_field("name", TypeTag::Text)]),
    };
    let decl2 = TypeDecl {
        name: "Test2".to_string(),
        shape: TypeShape::NamedFields(vec![plain_field("name", TypeTag::Text)]),
    };
    let schema1 = extract(&decl1).unwrap();
    let schema2 = extract(&decl2).unwrap();

    let test1 = Record {
        values: vec![FieldValue::Text(String::from("Taro"))],
    };
    let test2 = Record {
        values: vec![FieldValue::Text(String::from("Jiro"))],
    };

    let field1_names = schema1.get_field_names();
    let mut field1_values = vec![];
    for i in field1_names.iter() {
        field1_values.push(schema1.get_enum(&test1, i).unwrap());
    }
    assert_eq!(
        field1_values[0],
        FieldEnum {
            field: dog_field_spec("name", TypeTag::Text, 0),
            value: FieldValue::Text("Taro".to_string()),
        }
    );

    let field2_names = schema2.get_field_names();
    let mut field2_values = vec![];
    for i in field2_names.iter() {
        field2_values.push(schema2.get_enum(&test2, i).unwrap());
    }
    assert_eq!(
        field2_values[0],
        FieldEnum {
            field: dog_field_spec("name", TypeTag::Text, 0),
            value: FieldValue::Text("Jiro".to_string()),
        }
    );
}

#[test]
fn test_binding() {
    let schema = dog_schema();
    let dog = dog_record();
    let params = schema.get_field_enums(&dog);
    let mut query = prepare(&SqlPlan {
        sql: "INSERT INTO dog VALUES (?,?,?)".to_string(),
        binds: vec![],
    });
    for param in params {
        query = param.bind(query);
    }
    let mut inner = query.inner;
    assert_eq!(inner.take_arguments().unwrap().unwrap().len(), 3);
}

#[test]
fn test_skip() {
    let decl = TypeDecl {
        name: "Skipper".to_string(),
        shape: TypeShape::NamedFields(vec![
            plain_field("name", TypeTag::Text),
            skip_field("age", TypeTag::Int),
            skip_field("sex", TypeTag::Text),
            plain_field("life_expectancy", TypeTag::Int),
        ]),
    };
    let schema = extract(&decl).unwrap();
    let dog = Record {
        values: vec![
            FieldValue::Text("Taro".to_string()),
            FieldValue::Int(3),
            FieldValue::Text("male".to_string()),
            FieldValue::Int(9),
        ],
    };
    let field_enums = schema.get_field_enums(&dog);
    assert_eq!(dog.values[1], FieldValue::Int(3));
    assert_eq!(dog.values[2], FieldValue::Text(String::from("male")));
    assert_eq!(
        field_enums[0],
        FieldEnum {
            field: dog_field_spec("name", TypeTag::Text, 0),
            value: FieldValue::Text("Taro".to_string()),
        }
    );
    assert_eq!(
        field_enums[1],
        FieldEnum {
            field: dog_field_spec("life_expectancy", TypeTag::Int, 3),
            value: FieldValue::Int(9),
        }
    );
}
