use deltoid::codegen::{
    DataInput, DeclInput, DeriveError, FieldDesc, FieldInput, GenericInput, InputType,
    StructVariant, VariantInput,
};

fn named(name: &str, ty: &str, ignore: bool) -> FieldInput {
    FieldInput { ident: Some(name.to_string()), ty: ty.to_string(), ignore_field: ignore }
}

fn positional(ty: &str) -> FieldInput {
    FieldInput { ident: None, ty: ty.to_string(), ignore_field: false }
}

fn decl(ident: &str, data: DataInput) -> DeclInput {
    DeclInput {
        ident: ident.to_string(),
        generics: vec![
            GenericInput { decl: "'a".to_string(), type_ident: None },
            GenericInput { decl: "T: Clone".to_string(), type_ident: Some("T".to_string()) },
        ],
        where_clause: Some(vec!["T: Copy".to_string()]),
        data,
    }
}

#[test]
fn parse_named_struct() {
    let input = decl("Foo", DataInput::Struct(vec![named("bar", "u8", false), named("baz", "T", true)]));
    let parsed = InputType::parse(&input).unwrap();
    assert!(parsed.is_struct());
    assert!(!parsed.is_enum());
    assert_eq!(parsed.ty_name(), "Foo");
    assert_eq!(parsed.type_param_decls(), &vec!["'a".to_string(), "T: Clone".to_string()]);
    assert_eq!(parsed.where_clause(), &vec!["T: Copy".to_string()]);
    match parsed {
        InputType::Struct { struct_variant, delta_type_name, fields, type_params, .. } => {
            assert_eq!(struct_variant, StructVariant::NamedStruct);
            assert_eq!(delta_type_name, "FooDelta");
            assert_eq!(type_params, vec!["T".to_string()]);
            assert_eq!(fields.len(), 2);
            assert_eq!(fields[0].name_ref().unwrap(), "bar");
            assert!(matches!(fields[0].pos_ref(), Err(DeriveError::ExpectedPositionalField)));
            assert!(fields[1].ignore_field());
            assert_eq!(fields[1].type_ref(), "T");
        }
        _ => panic!("expected a struct"),
    }
}

#[test]
fn parse_tuple_and_unit_structs() {
    let tuple = decl("Baz", DataInput::Struct(vec![positional("String"), positional("u8")]));
    match InputType::parse(&tuple).unwrap() {
        InputType::Struct { struct_variant, fields, .. } => {
            assert_eq!(struct_variant, StructVariant::TupleStruct);
            assert_eq!(fields[1].pos_ref().unwrap(), 1);
            assert!(matches!(fields[1].name_ref(), Err(DeriveError::ExpectedNamedField)));
        }
        _ => panic!("expected a struct"),
    }
    let unit = DeclInput { ident: "Quux".to_string(), generics: vec![], where_clause: None, data: DataInput::Struct(vec![]) };
    match InputType::parse(&unit).unwrap() {
        InputType::Struct { struct_variant, fields, where_clause, delta_type_name, .. } => {
            assert_eq!(struct_variant, StructVariant::UnitStruct);
            assert!(fields.is_empty());
            assert!(where_clause.is_empty());
            assert_eq!(delta_type_name, "QuuxDelta");
        }
        _ => panic!("expected a struct"),
    }
}

#[test]
fn parse_mixed_fields_is_error() {
    let mixed = decl("Bad", DataInput::Struct(vec![named("a", "u8", false), positional("u8")]));
    assert!(matches!(InputType::parse(&mixed), Err(DeriveError::MixedFields)));
    let bad_enum = decl(
        "E",
        DataInput::Enum(vec![VariantInput { ident: "V".to_string(), fields: vec![positional("u8"), named("b", "u8", false)] }]),
    );
    assert!(matches!(InputType::parse(&bad_enum), Err(DeriveError::MixedFields)));
}

#[test]
fn parse_enum_variants() {
    let input = decl(
        "Shape",
        DataInput::Enum(vec![
            VariantInput { ident: "Empty".to_string(), fields: vec![] },
            VariantInput { ident: "Circle".to_string(), fields: vec![positional("f64")] },
            VariantInput { ident: "Rect".to_string(), fields: vec![named("w", "u32", false), named("h", "u32", false)] },
        ]),
    );
    let parsed = InputType::parse(&input).unwrap();
    assert!(parsed.is_enum());
    match parsed {
        InputType::Enum { enum_variants, delta_type_name, .. } => {
            assert_eq!(delta_type_name, "ShapeDelta");
            assert_eq!(enum_variants.len(), 3);
            assert_eq!(enum_variants[0].struct_variant, StructVariant::UnitStruct);
            assert_eq!(enum_variants[1].struct_variant, StructVariant::TupleStruct);
            assert_eq!(enum_variants[2].struct_variant, StructVariant::NamedStruct);
            assert_eq!(enum_variants[2].name, "Rect");
            assert_eq!(enum_variants[2].fields().len(), 2);
        }
        _ => panic!("expected an enum"),
    }
}

#[test]
fn parse_union() {
    let input = decl("U", DataInput::Union);
    assert!(matches!(InputType::parse(&input), Ok(InputType::Union)));
}

#[test]
fn field_type_tokens() {
    let ignored = FieldDesc::Named { name: "x".to_string(), ty: "Vec<u8>".to_string(), ignore_field: true };
    assert_eq!(ignored.type_tokens(), "std::marker::PhantomData<Vec<u8>>");
    let kept = FieldDesc::Positional { position: 0, ty: "u8".to_string(), ignore_field: false };
    assert_eq!(kept.type_tokens(), "Option<<u8 as deltoid::Core>::Delta>");
    assert!(kept.is_positional());
    assert!(!kept.is_named());
}
