use wire::{derive_wire_obj, wire_obj_source, Body, FieldDef, Fields, TypeDef, VariantDef, WireObjError};

fn field(name: Option<&str>, ty: &str) -> FieldDef {
    FieldDef { attrs: vec![], public: false, name: name.map(|n| n.to_string()), ty: ty.to_string() }
}

fn union(attrs: &[&str], variants: Vec<VariantDef>) -> TypeDef {
    TypeDef {
        attrs: attrs.iter().map(|a| a.to_string()).collect(),
        name: "Foo".to_string(),
        has_generics: false,
        body: Body::Enum(variants),
    }
}

#[test]
fn test_wire_obj() {
    let input = union(
        &["#[rustfmt::ignore]", "#[derive(Clone, Debug, PartialEq, Eq)]"],
        vec![
            VariantDef {
                name: "A".to_string(),
                fields: Fields::Named(vec![field(Some("a"), "i32"), field(Some("b"), "String")]),
            },
            VariantDef { name: "B".to_string(), fields: Fields::Named(vec![field(Some("horse"), "usize")]) },
        ],
    );
    let records = derive_wire_obj(&input).unwrap();
    assert_eq!(records.len(), 2);
    assert_eq!(
        records[0].to_source(),
        "#[rustfmt::ignore]\n#[derive(Clone, Debug, PartialEq, Eq)]\npub struct A { pub a: i32, pub b: String }\n"
    );
    assert_eq!(
        records[1].to_source(),
        "#[rustfmt::ignore]\n#[derive(Clone, Debug, PartialEq, Eq)]\npub struct B { pub horse: usize }\n"
    );
    println!("{:?}", records[0].clone());
    println!("{:?}", records[1].clone());
}

#[test]
fn splits_named_and_positional_variants() {
    let input = union(
        &["#[derive(Debug, Clone, PartialEq)]"],
        vec![
            VariantDef {
                name: "Foo".to_string(),
                fields: Fields::Named(vec![field(Some("a"), "i32"), field(Some("b"), "String")]),
            },
            VariantDef {
                name: "Bar".to_string(),
                fields: Fields::Unnamed(vec![field(None, "i32"), field(None, "i32")]),
            },
            VariantDef { name: "Baz".to_string(), fields: Fields::Unit },
        ],
    );
    let records = derive_wire_obj(&input).unwrap();
    let names: Vec<&str> = records.iter().map(|r| r.name.as_str()).collect();
    assert_eq!(names, vec!["Foo", "Bar", "Baz"]);
    for r in &records {
        assert_eq!(r.attrs, vec!["#[derive(Debug, Clone, PartialEq)]".to_string()]);
    }
    match &records[1].fields {
        Fields::Unnamed(fields) => {
            assert_eq!(fields.len(), 2);
            assert!(fields.iter().all(|f| f.public && f.name.is_none() && f.ty == "i32"));
        },
        other => panic!("unexpected fields {:?}", other),
    }
    assert_eq!(
        wire_obj_source(&input).unwrap(),
        "#[derive(Debug, Clone, PartialEq)]\npub struct Foo { pub a: i32, pub b: String }\n\
         #[derive(Debug, Clone, PartialEq)]\npub struct Bar(pub i32, pub i32);\n\
         #[derive(Debug, Clone, PartialEq)]\npub struct Baz;\n"
    );
}

#[test]
fn keeps_field_attributes_and_empty_unions() {
    let mut f = field(Some("a"), "u8");
    f.attrs = vec!["#[serde(default)]".to_string()];
    let input = union(&[], vec![VariantDef { name: "V".to_string(), fields: Fields::Named(vec![f]) }]);
    assert_eq!(wire_obj_source(&input).unwrap(), "pub struct V { #[serde(default)] pub a: u8 }\n");
    assert_eq!(wire_obj_source(&union(&[], vec![])).unwrap(), "");
    assert!(derive_wire_obj(&union(&[], vec![])).unwrap().is_empty());
}

#[test]
fn refuses_records_and_generic_unions() {
    let record = TypeDef {
        attrs: vec![],
        name: "S".to_string(),
        has_generics: true,
        body: Body::Struct(Fields::Unit),
    };
    assert_eq!(derive_wire_obj(&record).unwrap_err(), WireObjError::NotAnEnum);
    let untagged = TypeDef { body: Body::Union(vec![field(Some("x"), "u32")]), has_generics: false, ..record.clone() };
    assert_eq!(wire_obj_source(&untagged).unwrap_err(), WireObjError::NotAnEnum);
    let mut generic = union(&[], vec![VariantDef { name: "A".to_string(), fields: Fields::Unit }]);
    generic.has_generics = true;
    assert_eq!(derive_wire_obj(&generic).unwrap_err(), WireObjError::Generic);
    assert_eq!(WireObjError::NotAnEnum.message(), "wire only works on enums");
    assert_eq!(WireObjError::Generic.message(), "wire does not support generics");
}
