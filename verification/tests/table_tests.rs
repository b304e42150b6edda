use super_enum::descriptor::{EnumDescriptor, FieldShape, TypeDescriptor, VariantDescriptor};
use super_enum::table::{super_enum, DeriveError};

fn state_descriptor() -> EnumDescriptor {
    EnumDescriptor {
        name: String::from("State"),
        variants: vec![
            VariantDescriptor { name: String::from("Idle"), shape: FieldShape::Unit },
            VariantDescriptor {
                name: String::from("RunningFast"),
                shape: FieldShape::Unnamed(2),
            },
            VariantDescriptor {
                name: String::from("Stopped"),
                shape: FieldShape::Named(vec![String::from("code"), String::from("fatal")]),
            },
        ],
    }
}

#[test]
fn count_matches_declared_variants() {
    let t = super_enum(TypeDescriptor::Enum(state_descriptor())).unwrap();
    assert_eq!(t.len(), 3);
}

#[test]
fn all_lists_every_variant_in_declaration_order() {
    let t = super_enum(TypeDescriptor::Enum(state_descriptor())).unwrap();
    let all = t.all();
    assert_eq!(all.len(), 3);
    for (i, v) in all.iter().enumerate() {
        assert_eq!(v.tag, i);
    }
}

#[test]
fn variant_to_ordinal_both_widths() {
    let t = super_enum(TypeDescriptor::Enum(state_descriptor())).unwrap();
    for i in 0..t.len() {
        let v = t.from_usize(i);
        assert_eq!(v.to_usize(), i);
        assert_eq!(v.to_u64(), i as u64);
    }
}

#[test]
fn ordinal_ignores_field_values() {
    let t = super_enum(TypeDescriptor::Enum(state_descriptor())).unwrap();
    let mut v = t.from_usize(1);
    v.fields = vec![7, 99];
    assert_eq!(v.to_usize(), 1);
    assert_eq!(v.to_u64(), 1);
}

#[test]
fn ordinal_round_trip_on_tag() {
    let t = super_enum(TypeDescriptor::Enum(state_descriptor())).unwrap();
    for i in 0..t.len() {
        assert_eq!(t.from_usize(i).to_usize(), i);
    }
}

#[test]
fn reconstruction_defaults_fields() {
    let t = super_enum(TypeDescriptor::Enum(state_descriptor())).unwrap();
    assert_eq!(t.from_usize(0).fields, Vec::<u64>::new());
    assert_eq!(t.from_usize(1).fields, vec![0, 0]);
    assert_eq!(t.from_usize(2).fields, vec![0, 0]);
}

#[test]
fn name_table_follows_naming_policy() {
    let t = super_enum(TypeDescriptor::Enum(state_descriptor())).unwrap();
    let names = t.as_str_array();
    assert_eq!(names.len(), 3);
    assert_eq!(names[0], "Idle");
    assert_eq!(names[1], "Running Fast");
    assert_eq!(names[2], "Stopped");
}

#[test]
fn as_str_names_each_value() {
    let t = super_enum(TypeDescriptor::Enum(state_descriptor())).unwrap();
    assert_eq!(t.as_str(&t.from_usize(0)), "Idle");
    assert_eq!(t.as_str(&t.from_usize(1)), "Running Fast");
    assert_eq!(t.as_str(&t.from_usize(2)), "Stopped");
}

#[test]
fn from_one_yields_the_second_variant() {
    let t = super_enum(TypeDescriptor::Enum(state_descriptor())).unwrap();
    let v = t.from_usize(1);
    assert_eq!(v.tag, 1);
    assert_eq!(t.as_str(&v), "Running Fast");
    assert_eq!(v.fields, vec![0, 0]);
}

#[test]
fn table_reports_enum_name_and_variants() {
    let t = super_enum(TypeDescriptor::Enum(state_descriptor())).unwrap();
    assert_eq!(t.name(), "State");
    assert_eq!(t.variant(0).name, "Idle");
    assert_eq!(t.variant(1).name, "RunningFast");
    assert_eq!(t.variant(2).name, "Stopped");
    assert!(matches!(t.variant(2).shape, FieldShape::Named(_)));
}

#[test]
fn struct_target_is_rejected() {
    let r = super_enum(TypeDescriptor::Struct);
    assert!(matches!(r, Err(DeriveError::UnsupportedTarget)));
    assert_eq!(r.err().unwrap().message(), "derivation can only be used with enums");
}

#[test]
fn union_target_is_rejected() {
    let r = super_enum(TypeDescriptor::Union);
    assert!(matches!(r, Err(DeriveError::UnsupportedTarget)));
}

#[test]
fn empty_enum_has_empty_table() {
    let e = EnumDescriptor { name: String::from("Never"), variants: vec![] };
    let t = super_enum(TypeDescriptor::Enum(e)).unwrap();
    assert_eq!(t.len(), 0);
    assert_eq!(t.all().len(), 0);
    assert_eq!(t.as_str_array().len(), 0);
}
