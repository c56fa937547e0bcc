use pstruct::access::accessor_plan;
use pstruct::access::direct_field_bytes;
use pstruct::access::direct_load_bytes;
use pstruct::access::load_u16_le;
use pstruct::access::load_u32_le;
use pstruct::access::load_u64_le;
use pstruct::access::load_u8;
use pstruct::schema::build_schema;
use pstruct::schema::AccessMode;
use pstruct::schema::FieldDescriptor;
use pstruct::schema::OffsetAttr;
use pstruct::schema::RawField;
use pstruct::schema::Schema;
use pstruct::schema::SchemaDecl;
use pstruct::view::ViewInstance;

fn descriptor(offset: usize, mode: AccessMode) -> FieldDescriptor {
    FieldDescriptor { name: "f".to_string(), offset, mode }
}

fn example_schema() -> Schema {
    let d = SchemaDecl {
        name: "Example".to_string(),
        named_fields: true,
        has_generics: false,
        fields: vec![
            RawField {
                name: "field_b".to_string(),
                attr: Some(OffsetAttr { offset: 0x0, array: None, reinterpret: false }),
            },
            RawField {
                name: "field_a".to_string(),
                attr: Some(OffsetAttr { offset: 0x1, array: None, reinterpret: false }),
            },
            RawField {
                name: "field_c".to_string(),
                attr: Some(OffsetAttr { offset: 0xF, array: None, reinterpret: true }),
            },
            RawField {
                name: "field_d".to_string(),
                attr: Some(OffsetAttr { offset: 0x5, array: Some(10), reinterpret: false }),
            },
        ],
    };
    build_schema(&d).unwrap()
}

fn example_bytes() -> Vec<u8> {
    vec![69, 255, 255, 255, 255, 10, 20, 30, 40, 50, 60, 70, 80, 90, 100, 40]
}

#[test]
fn end_to_end_example_layout() {
    let schema = example_schema();
    let bytes = example_bytes();
    // The view's base is the start of the byte sequence; the model reads the
    // addressed memory through buffer offsets relative to that base.
    let view = ViewInstance::from_addr(0);

    let field_b = &schema.fields[0];
    assert_eq!(field_b.mode, AccessMode::Direct);
    assert_eq!(load_u8(&bytes, field_b.offset), 69);

    let field_a = &schema.fields[1];
    assert_eq!(load_u32_le(&bytes, field_a.offset), 0xFFFF_FFFF);

    let field_c = &schema.fields[2];
    let c_addr = view.reinterpret_addr(field_c);
    assert_eq!(c_addr, 0xF);
    assert_eq!(bytes[c_addr], 40);

    let field_d = &schema.fields[3];
    let elem0 = view.array_elem_addr(field_d, 0).unwrap();
    assert_eq!(bytes[elem0], 10);
    assert!(view.array_elem_addr(field_d, 10).is_none());
}

#[test]
fn direct_load_copies_exact_bytes() {
    let bytes: Vec<u8> = (0u8..32).collect();
    // An odd offset: direct loads impose no alignment requirement.
    let r = direct_load_bytes(&bytes, 3, 5);
    assert_eq!(r, vec![3, 4, 5, 6, 7]);
    let d = descriptor(9, AccessMode::Direct);
    assert_eq!(direct_field_bytes(&bytes, &d, 4), vec![9, 10, 11, 12]);
}

#[test]
fn zero_length_direct_load_is_empty() {
    let bytes = vec![1, 2, 3];
    assert!(direct_load_bytes(&bytes, 3, 0).is_empty());
    assert!(direct_load_bytes(&bytes, 0, 0).is_empty());
}

#[test]
fn typed_loads_are_little_endian() {
    let bytes = vec![0xEF, 0x34, 0x12, 0x78, 0x56, 0x34, 0x12, 0xFF, 0x00, 0x01, 0x02, 0x03];
    assert_eq!(load_u8(&bytes, 0), 0xEF);
    assert_eq!(load_u16_le(&bytes, 1), 0x1234);
    assert_eq!(load_u32_le(&bytes, 3), 0x12345678);
    assert_eq!(load_u64_le(&bytes, 3), 0x020100FF12345678u64);
}

#[test]
fn u64_load_matches_formula() {
    let bytes = vec![1, 0, 0, 0, 0, 0, 0, 2];
    // 1 + 2 * 256^7
    assert_eq!(load_u64_le(&bytes, 0), 1 + (2u64 << 56));
}

#[test]
fn reinterpret_returns_computed_address() {
    // The pointer value is base + offset itself; nothing is read through it.
    let view = ViewInstance::from_addr(100);
    let d = descriptor(0xF, AccessMode::Reinterpret);
    assert_eq!(view.reinterpret_addr(&d), 115);
    assert_eq!(view.field_addr(&d), 115);
}

#[test]
fn array_stride_is_declared_size() {
    let view = ViewInstance::from_addr(1000);
    let d = descriptor(0x5, AccessMode::Array { size: 10 });
    // Element addresses advance by the declared array size per index.
    assert_eq!(view.array_elem_addr(&d, 0), Some(1005));
    assert_eq!(view.array_elem_addr(&d, 3), Some(1035));
    assert_eq!(view.array_elem_addr(&d, 9), Some(1095));
}

#[test]
fn array_index_out_of_bounds_is_absent() {
    let view = ViewInstance::from_addr(0);
    let d = descriptor(4, AccessMode::Array { size: 3 });
    assert!(view.array_elem_addr(&d, 3).is_none());
    assert!(view.array_elem_addr(&d, 4).is_none());
    assert!(view.array_elem_addr(&d, usize::MAX).is_none());
}

#[test]
fn duplicated_view_agrees_with_original() {
    let original = ViewInstance::from_addr(0x4000);
    let copy = original;
    let cloned = original.clone();
    let direct = descriptor(2, AccessMode::Direct);
    let arr = descriptor(6, AccessMode::Array { size: 4 });
    assert_eq!(copy.addr(), original.addr());
    assert_eq!(cloned.addr(), original.addr());
    assert_eq!(copy.is_null(), original.is_null());
    assert_eq!(copy.field_addr(&direct), original.field_addr(&direct));
    assert_eq!(copy.array_elem_addr(&arr, 2), original.array_elem_addr(&arr, 2));
    assert_eq!(cloned.array_elem_addr(&arr, 9), original.array_elem_addr(&arr, 9));
}

#[test]
fn null_check_is_zero_address() {
    assert!(ViewInstance::from_addr(0).is_null());
    assert!(!ViewInstance::from_addr(1).is_null());
    assert_eq!(ViewInstance::from_addr(77).addr(), 77);
}

#[test]
fn accessor_plan_hides_array_base() {
    let direct = descriptor(1, AccessMode::Direct);
    let reint = descriptor(2, AccessMode::Reinterpret);
    let arr = descriptor(3, AccessMode::Array { size: 2 });
    assert!(accessor_plan(&direct).base_public);
    assert!(accessor_plan(&reint).base_public);
    let p = accessor_plan(&arr);
    assert!(!p.base_public);
    assert_eq!(p.offset, 3);
    assert_eq!(p.mode, AccessMode::Array { size: 2 });
}

#[test]
fn array_base_accessor_matches_element_zero() {
    let view = ViewInstance::from_addr(500);
    let d = descriptor(7, AccessMode::Array { size: 5 });
    assert_eq!(view.array_base_addr(&d), 507);
    assert_eq!(view.array_elem_addr(&d, 0), Some(507));
}
